//! The session: the menu loop as a machine that is fed events and answers
//! with what to show and what to do next.
//!
//! The caller owns the console and the network. It asks the session what it
//! waits for ([`Session::demand`]), does that, and hands the outcome back as
//! an [`Event`] ([`Session::step`]), which yields the next session and the
//! lines to show.

use crate::collect::{Draft, DraftView, Field};
use crate::error::{ApiError, ApiErrorKind, ApiErrorView, InputParseError};
use crate::number::{i32_of, integer_of, parse_i32, parse_integer};
use crate::present::{
    is_title_label, list_lines, painted_title_label, product_list, title_label,
};
use crate::product::{Price, Product, ProductView, Received, ReceivedView};
use crate::request::{Call, CallView, Operation, Shape};
use crate::text::{trim, trimmed};
use vstd::prelude::*;
use vstd::string::StringExecFns;

verus! {

/// The operations that work on one product, which the user names by its
/// identifier.
#[derive(Clone, Copy, Debug, PartialEq, Eq, Structural)]
pub enum Targeted {
    Fetch,
    Delete,
    Edit,
}

impl Targeted {
    /// The line that asks for the identifier.
    pub open spec fn prompt_text(self) -> Seq<char> {
        match self {
            Targeted::Fetch => "Enter product ID:"@,
            Targeted::Delete => "Enter product ID to delete:"@,
            Targeted::Edit => "Enter product ID to edit:"@,
        }
    }

    /// The operation that this is.
    pub open spec fn operation(self) -> Operation {
        match self {
            Targeted::Fetch => Operation::Fetch,
            Targeted::Delete => Operation::Delete,
            Targeted::Edit => Operation::Edit,
        }
    }

    /// The line that asks for the identifier.
    pub fn prompt(self) -> (r: &'static str)
        ensures
            r@ == self.prompt_text(),
    {
        match self {
            Targeted::Fetch => "Enter product ID:",
            Targeted::Delete => "Enter product ID to delete:",
            Targeted::Edit => "Enter product ID to edit:",
        }
    }
}

/// Where a running session stands within one round of the menu.
#[derive(Clone, Debug, PartialEq, Eq)]
pub enum Phase {
    /// The menu is on show; the selector is awaited.
    Selecting,
    /// The identifier of the product to work on is awaited.
    Targeting(Targeted),
    /// The line for `field` is awaited. `target` is the product to edit;
    /// without one a product is being created.
    Collecting { target: Option<i32>, field: Field, draft: Draft },
    /// All fields are entered; what the price text reads as is awaited.
    Pricing { target: Option<i32>, draft: Draft },
    /// The request of this call is under way; its answer is awaited.
    Calling(Call),
}

/// A [`Phase`] as the contracts see it.
pub enum PhaseView {
    Selecting,
    Targeting(Targeted),
    Collecting { target: Option<i32>, field: Field, draft: DraftView },
    Pricing { target: Option<i32>, draft: DraftView },
    Calling(CallView),
}

impl View for Phase {
    type V = PhaseView;

    open spec fn view(&self) -> PhaseView {
        match self {
            Phase::Selecting => PhaseView::Selecting,
            Phase::Targeting(op) => PhaseView::Targeting(*op),
            Phase::Collecting { target, field, draft } => PhaseView::Collecting {
                target: *target,
                field: *field,
                draft: draft@,
            },
            Phase::Pricing { target, draft } => PhaseView::Pricing { target: *target, draft: draft@ },
            Phase::Calling(call) => PhaseView::Calling(call@),
        }
    }
}

/// The state of the menu loop.
#[derive(Clone, Debug, PartialEq, Eq)]
pub enum Session {
    /// The loop goes on.
    Running(Phase),
    /// The user chose to leave: the loop has ended.
    Exiting,
    /// A line that had to be a number was none: the loop has ended in
    /// failure.
    Failed(InputParseError),
}

/// A [`Session`] as the contracts see it.
pub enum SessionView {
    Running(PhaseView),
    Exiting,
    Failed(InputParseError),
}

impl View for Session {
    type V = SessionView;

    open spec fn view(&self) -> SessionView {
        match self {
            Session::Running(phase) => SessionView::Running(phase@),
            Session::Exiting => SessionView::Exiting,
            Session::Failed(error) => SessionView::Failed(*error),
        }
    }
}

/// What a successful request brought back.
#[derive(Clone, Debug, PartialEq, Eq)]
pub enum Reply {
    /// The products of the collection, in the order in which they came.
    Products(Vec<Received>),
    /// One product.
    Product(Received),
    /// Nothing that is looked at.
    Done,
}

/// A [`Reply`] as the contracts see it.
pub enum ReplyView {
    Products(Seq<ReceivedView>),
    Product(ReceivedView),
    Done,
}

impl View for Reply {
    type V = ReplyView;

    open spec fn view(&self) -> ReplyView {
        match self {
            Reply::Products(products) => ReplyView::Products(products.deep_view()),
            Reply::Product(received) => ReplyView::Product(received@),
            Reply::Done => ReplyView::Done,
        }
    }
}

/// What the caller reports to the session.
#[derive(Debug, PartialEq, Eq)]
pub enum Event {
    /// A line was read from the console.
    Line(String),
    /// The price text was read as a number: this is the number, or nothing
    /// where the text is no number.
    PriceRead(Option<Price>),
    /// The request ended, in this way.
    Answer(Result<Reply, ApiError>),
}

/// An [`Event`] as the contracts see it.
pub enum EventView {
    Line(Seq<char>),
    PriceRead(Option<Price>),
    Answer(Result<ReplyView, ApiErrorView>),
}

impl View for Event {
    type V = EventView;

    open spec fn view(&self) -> EventView {
        match self {
            Event::Line(line) => EventView::Line(line@),
            Event::PriceRead(reading) => EventView::PriceRead(*reading),
            Event::Answer(answer) => EventView::Answer(answer_view(*answer)),
        }
    }
}

/// Something for the caller to show.
#[derive(Clone, Debug, PartialEq, Eq)]
pub enum Output {
    /// A line for the standard output.
    Stdout(String),
    /// A line for the standard error.
    Stderr(String),
    /// A line for the standard output that holds `label` and then `product`
    /// in its debug form.
    Record { label: String, product: Product },
}

/// An [`Output`] as the contracts see it.
pub enum OutputView {
    Stdout(Seq<char>),
    Stderr(Seq<char>),
    Record { label: Seq<char>, product: ProductView },
}

impl View for Output {
    type V = OutputView;

    open spec fn view(&self) -> OutputView {
        match self {
            Output::Stdout(line) => OutputView::Stdout(line@),
            Output::Stderr(line) => OutputView::Stderr(line@),
            Output::Record { label, product } => OutputView::Record {
                label: label@,
                product: product@,
            },
        }
    }
}

impl DeepView for Output {
    type V = OutputView;

    open spec fn deep_view(&self) -> OutputView {
        self@
    }
}

/// What the session waits for.
#[derive(Debug)]
pub enum Demand<'a> {
    /// A line from the console.
    Line,
    /// This text, read as a floating-point number.
    Price(&'a str),
    /// The outcome of the request that this call makes.
    Call(&'a Call),
    /// Nothing: the session has ended in the ordinary way.
    Stop,
    /// Nothing: the session has ended in failure, for this reason.
    Fail(InputParseError),
}

/// A [`Demand`] as the contracts see it.
pub enum DemandView {
    Line,
    Price(Seq<char>),
    Call(CallView),
    Stop,
    Fail(InputParseError),
}

impl<'a> View for Demand<'a> {
    type V = DemandView;

    open spec fn view(&self) -> DemandView {
        match self {
            Demand::Line => DemandView::Line,
            Demand::Price(text) => DemandView::Price(text@),
            Demand::Call(call) => DemandView::Call(call@),
            Demand::Stop => DemandView::Stop,
            Demand::Fail(error) => DemandView::Fail(*error),
        }
    }
}

/// The lines of the menu.
pub open spec fn menu_lines() -> Seq<Seq<char>> {
    seq![
        "This is a simple REST API client for a fake store API."@,
        "Select an operation:"@,
        "1. Get Products"@,
        "2. Get Product by ID"@,
        "3. Create Product"@,
        "4. Delete Product"@,
        "5. Edit Product by ID"@,
        "0. Exit"@,
    ]
}

/// `lines`, each as a line for the standard output.
pub open spec fn out_lines(lines: Seq<Seq<char>>) -> Seq<OutputView> {
    Seq::new(lines.len(), |i: int| OutputView::Stdout(lines[i]))
}

/// What closes a round: three empty lines, and the menu again.
pub open spec fn round_end() -> Seq<OutputView> {
    out_lines(seq![""@, ""@, ""@] + menu_lines())
}

/// The words that open the report of a failed call of `operation`.
pub open spec fn failure_prefix(operation: Operation) -> Seq<char> {
    match operation {
        Operation::List => "Error fetching products: "@,
        Operation::Fetch => "Error fetching product: "@,
        Operation::Create => "Error creating product: "@,
        Operation::Delete => "Error deleting product: "@,
        Operation::Edit => "Error editing product: "@,
    }
}

impl ReplyView {
    /// What this reply holds.
    pub open spec fn shape(self) -> Shape {
        match self {
            ReplyView::Products(_) => Shape::Products,
            ReplyView::Product(_) => Shape::Product,
            ReplyView::Done => Shape::Nothing,
        }
    }
}

/// Whether `reply` holds what the answer to `call` is expected to hold.
pub open spec fn fits(call: CallView, reply: ReplyView) -> bool {
    reply.shape() == call.expects()
}

/// Whether `event` is what `session` waits for.
pub open spec fn awaits(session: SessionView, event: EventView) -> bool {
    match (session, event) {
        (SessionView::Running(PhaseView::Selecting), EventView::Line(_)) => true,
        (SessionView::Running(PhaseView::Targeting(_)), EventView::Line(_)) => true,
        (SessionView::Running(PhaseView::Collecting { .. }), EventView::Line(_)) => true,
        (SessionView::Running(PhaseView::Pricing { .. }), EventView::PriceRead(_)) => true,
        (SessionView::Running(PhaseView::Calling(_)), EventView::Answer(_)) => true,
        _ => false,
    }
}

/// What is shown of a reply that fits its call, before the round is closed.
/// `label` is the title label as it is to be shown.
pub open spec fn reply_output(call: CallView, reply: ReplyView, label: Seq<char>) -> Seq<
    OutputView,
> {
    match (call, reply) {
        (CallView::List, ReplyView::Products(products)) => out_lines(list_lines(products, label)),
        (CallView::Fetch(_), ReplyView::Product(received)) => out_lines(
            list_lines(seq![received], label),
        ),
        (CallView::Create(_), ReplyView::Product(received)) => seq![
            OutputView::Record { label: "Created Product: "@, product: received.product },
        ],
        (CallView::Edit(_, _), ReplyView::Product(received)) => seq![
            OutputView::Record { label: "Edited Product: "@, product: received.product },
        ],
        (CallView::Delete(_), ReplyView::Done) => seq![
            OutputView::Stdout("Product deleted successfully"@),
        ],
        _ => Seq::empty(),
    }
}

/// What is shown of a call that failed with `error`, before the round is
/// closed.
pub open spec fn failure_output(call: CallView, error: ApiErrorView) -> Seq<OutputView> {
    seq![OutputView::Stderr(failure_prefix(call.operation()) + error.message)]
}

/// The session in which a round begins.
pub open spec fn selecting() -> SessionView {
    SessionView::Running(PhaseView::Selecting)
}

/// The session in which the first field of a product is awaited.
pub open spec fn collecting_from_start(target: Option<i32>) -> SessionView {
    SessionView::Running(
        PhaseView::Collecting { target, field: Field::Title, draft: DraftView::empty() },
    )
}

/// What a line read at the menu leads to.
///
/// The line is taken without the whitespace around it and read as an
/// integer of any length. Zero ends the session. One to five start the
/// operation that the number stands for. Any other integer, negative ones
/// and large ones too, is pointed out and the round closed. Only a line that
/// is no integer ends the session in failure.
pub open spec fn on_selector(line: Seq<char>) -> (SessionView, Seq<OutputView>) {
    match integer_of(trimmed(line)) {
        None => (SessionView::Failed(InputParseError::Selector), Seq::empty()),
        Some(n) => if n == 0 {
            (SessionView::Exiting, seq![OutputView::Stdout("Exiting..."@)])
        } else {
            match Operation::of_selector_spec(n) {
                Some(Operation::List) => (
                    SessionView::Running(PhaseView::Calling(CallView::List)),
                    Seq::empty(),
                ),
                Some(Operation::Fetch) => (
                    SessionView::Running(PhaseView::Targeting(Targeted::Fetch)),
                    seq![OutputView::Stdout(Targeted::Fetch.prompt_text())],
                ),
                Some(Operation::Create) => (
                    collecting_from_start(None),
                    seq![OutputView::Stdout(Field::Title.prompt_text())],
                ),
                Some(Operation::Delete) => (
                    SessionView::Running(PhaseView::Targeting(Targeted::Delete)),
                    seq![OutputView::Stdout(Targeted::Delete.prompt_text())],
                ),
                Some(Operation::Edit) => (
                    SessionView::Running(PhaseView::Targeting(Targeted::Edit)),
                    seq![OutputView::Stdout(Targeted::Edit.prompt_text())],
                ),
                None => (
                    selecting(),
                    seq![OutputView::Stdout("Invalid choice, please select 1, 2, or 3."@)]
                        + round_end(),
                ),
            }
        },
    }
}

/// What a line read as the identifier for `op` leads to.
///
/// The line is taken without the whitespace around it and read as a signed
/// number. A line that is no number ends the session in failure.
pub open spec fn on_target(op: Targeted, line: Seq<char>) -> (SessionView, Seq<OutputView>) {
    match i32_of(trimmed(line)) {
        None => (SessionView::Failed(InputParseError::ProductId), Seq::empty()),
        Some(id) => match op {
            Targeted::Fetch => (
                SessionView::Running(PhaseView::Calling(CallView::Fetch(id))),
                Seq::empty(),
            ),
            Targeted::Delete => (
                SessionView::Running(PhaseView::Calling(CallView::Delete(id))),
                Seq::empty(),
            ),
            Targeted::Edit => (
                collecting_from_start(Some(id)),
                seq![OutputView::Stdout(Field::Title.prompt_text())],
            ),
        },
    }
}

/// What a line read for `field` leads to: the next field is asked for, or,
/// after the last one, the price text is to be read as a number.
pub open spec fn on_field(target: Option<i32>, field: Field, draft: DraftView, line: Seq<char>) -> (
    SessionView,
    Seq<OutputView>,
) {
    let filled = draft.with(field, line);
    match field.next_spec() {
        Some(next) => (
            SessionView::Running(PhaseView::Collecting { target, field: next, draft: filled }),
            seq![OutputView::Stdout(next.prompt_text())],
        ),
        None => (SessionView::Running(PhaseView::Pricing { target, draft: filled }), Seq::empty()),
    }
}

/// The call that the entered fields lead to: a creation without a target, an
/// edit with one.
pub open spec fn call_for(target: Option<i32>, draft: DraftView, reading: Option<Price>) -> CallView {
    match target {
        None => CallView::Create(draft.fields(reading)),
        Some(id) => CallView::Edit(id, draft.fields(reading)),
    }
}

/// The failure that a reply stands for which holds something other than what
/// the answer to its call is expected to hold.
pub open spec fn unexpected_shape() -> ApiErrorView {
    ApiErrorView {
        kind: ApiErrorKind::Decode,
        message: "response body does not match the expected shape"@,
    }
}

/// What the answer to `call` leads to: a failure is reported, a reply that
/// fits is shown, a reply that does not fit is reported as a failure to
/// decode, and in each case the round is closed. The request is never made
/// again.
pub open spec fn on_answer(call: CallView, answer: Result<ReplyView, ApiErrorView>, label: Seq<char>) -> (
    SessionView,
    Seq<OutputView>,
) {
    match answer {
        Err(error) => (selecting(), failure_output(call, error) + round_end()),
        Ok(reply) => if fits(call, reply) {
            (selecting(), reply_output(call, reply, label) + round_end())
        } else {
            (selecting(), failure_output(call, unexpected_shape()) + round_end())
        },
    }
}

/// The session after `event`, and what is to be shown on the way. `label` is
/// the title label as it is to be shown. An event that the session does not
/// wait for changes nothing and shows nothing.
pub open spec fn step_spec(session: SessionView, event: EventView, label: Seq<char>) -> (
    SessionView,
    Seq<OutputView>,
) {
    match (session, event) {
        (SessionView::Running(PhaseView::Selecting), EventView::Line(line)) => on_selector(line),
        (SessionView::Running(PhaseView::Targeting(op)), EventView::Line(line)) => on_target(
            op,
            line,
        ),
        (
            SessionView::Running(PhaseView::Collecting { target, field, draft }),
            EventView::Line(line),
        ) => on_field(target, field, draft, line),
        (
            SessionView::Running(PhaseView::Pricing { target, draft }),
            EventView::PriceRead(reading),
        ) => (SessionView::Running(PhaseView::Calling(call_for(target, draft, reading))), Seq::empty()),
        (SessionView::Running(PhaseView::Calling(call)), EventView::Answer(answer)) => on_answer(
            call,
            answer,
            label,
        ),
        _ => (session, Seq::empty()),
    }
}

/// What `session` waits for.
pub open spec fn demand_spec(session: SessionView) -> DemandView {
    match session {
        SessionView::Running(PhaseView::Selecting) => DemandView::Line,
        SessionView::Running(PhaseView::Targeting(_)) => DemandView::Line,
        SessionView::Running(PhaseView::Collecting { .. }) => DemandView::Line,
        SessionView::Running(PhaseView::Pricing { draft, .. }) => DemandView::Price(
            draft.price_text,
        ),
        SessionView::Running(PhaseView::Calling(call)) => DemandView::Call(call),
        SessionView::Exiting => DemandView::Stop,
        SessionView::Failed(error) => DemandView::Fail(error),
    }
}

/// The answer as the contracts see it.
pub open spec fn answer_view(answer: Result<Reply, ApiError>) -> Result<ReplyView, ApiErrorView> {
    match answer {
        Ok(reply) => Ok(reply@),
        Err(error) => Err(error@),
    }
}

/// `text` as a line for the standard output.
fn stdout_line(text: &str) -> (r: Output)
    ensures
        r@ == OutputView::Stdout(text@),
{
    Output::Stdout(String::from_str(text))
}

/// A list that holds `item` and nothing else.
fn only(item: Output) -> (r: Vec<Output>)
    ensures
        r.deep_view() == seq![item@],
{
    let mut output: Vec<Output> = Vec::new();
    output.push(item);
    output
}

/// A list that holds nothing.
fn nothing() -> (r: Vec<Output>)
    ensures
        r.deep_view() == Seq::<OutputView>::empty(),
{
    Vec::new()
}

/// Appends `lines` to `output`, each as a line for the standard output.
fn push_out_lines(output: &mut Vec<Output>, lines: &Vec<String>)
    ensures
        final(output).deep_view() == old(output).deep_view() + out_lines(lines.deep_view()),
{
    let ghost before = output.deep_view();
    let ghost all = lines.deep_view();
    let mut i: usize = 0;
    while i < lines.len()
        invariant
            i <= lines.len(),
            all == lines.deep_view(),
            output.deep_view() == before + out_lines(all.subrange(0, i as int)),
        decreases lines.len() - i,
    {
        let ghost shown = output.deep_view();
        let line = lines[i].clone();
        output.push(Output::Stdout(line));
        proof {
            let next = OutputView::Stdout(all[i as int]);
            assert(output.deep_view() =~= shown.push(next));
            assert(out_lines(all.subrange(0, i + 1)) =~= out_lines(all.subrange(0, i as int)).push(
                next,
            ));
        }
        i = i + 1;
    }
}

/// Appends to `lines` the lines of the menu.
fn push_menu(lines: &mut Vec<String>)
    ensures
        final(lines).deep_view() == old(lines).deep_view() + menu_lines(),
{
    lines.push(String::from_str("This is a simple REST API client for a fake store API."));
    lines.push(String::from_str("Select an operation:"));
    lines.push(String::from_str("1. Get Products"));
    lines.push(String::from_str("2. Get Product by ID"));
    lines.push(String::from_str("3. Create Product"));
    lines.push(String::from_str("4. Delete Product"));
    lines.push(String::from_str("5. Edit Product by ID"));
    lines.push(String::from_str("0. Exit"));
}

/// Appends to `output` what closes a round.
fn push_round_end(output: &mut Vec<Output>)
    ensures
        final(output).deep_view() == old(output).deep_view() + round_end(),
{
    let mut lines: Vec<String> = Vec::new();
    lines.push(String::from_str(""));
    lines.push(String::from_str(""));
    lines.push(String::from_str(""));
    push_menu(&mut lines);
    push_out_lines(output, &lines);
}

/// The words that open the report of a failed call of `operation`.
fn failure_words(operation: Operation) -> (r: &'static str)
    ensures
        r@ == failure_prefix(operation),
{
    match operation {
        Operation::List => "Error fetching products: ",
        Operation::Fetch => "Error fetching product: ",
        Operation::Create => "Error creating product: ",
        Operation::Delete => "Error deleting product: ",
        Operation::Edit => "Error editing product: ",
    }
}

/// The session in which the first field of a product is awaited, and the
/// line that asks for it.
fn start_collecting(target: Option<i32>) -> (r: (Session, Vec<Output>))
    ensures
        r.0@ == collecting_from_start(target),
        r.1.deep_view() == seq![OutputView::Stdout(Field::Title.prompt_text())],
{
    (
        Session::Running(Phase::Collecting { target, field: Field::Title, draft: Draft::empty() }),
        only(stdout_line(Field::Title.prompt())),
    )
}

/// The session in which the identifier for `op` is awaited, and the line that
/// asks for it.
fn start_targeting(op: Targeted) -> (r: (Session, Vec<Output>))
    ensures
        r.0@ == SessionView::Running(PhaseView::Targeting(op)),
        r.1.deep_view() == seq![OutputView::Stdout(op.prompt_text())],
{
    (Session::Running(Phase::Targeting(op)), only(stdout_line(op.prompt())))
}

/// Takes a line read at the menu.
fn select(line: &str) -> (r: (Session, Vec<Output>))
    ensures
        r.0@ == on_selector(line@).0,
        r.1.deep_view() == on_selector(line@).1,
{
    match parse_integer(trim(line)) {
        None => (Session::Failed(InputParseError::Selector), nothing()),
        Some(n) => {
            if n == 0 {
                (Session::Exiting, only(stdout_line("Exiting...")))
            } else {
                match Operation::of_selector(n) {
                    Some(Operation::List) => (Session::Running(Phase::Calling(Call::List)), nothing()),
                    Some(Operation::Fetch) => start_targeting(Targeted::Fetch),
                    Some(Operation::Create) => start_collecting(None),
                    Some(Operation::Delete) => start_targeting(Targeted::Delete),
                    Some(Operation::Edit) => start_targeting(Targeted::Edit),
                    None => {
                        let mut output = only(
                            stdout_line("Invalid choice, please select 1, 2, or 3."),
                        );
                        push_round_end(&mut output);
                        (Session::Running(Phase::Selecting), output)
                    },
                }
            }
        },
    }
}

/// Takes a line read as the identifier for `op`.
fn target(op: Targeted, line: &str) -> (r: (Session, Vec<Output>))
    ensures
        r.0@ == on_target(op, line@).0,
        r.1.deep_view() == on_target(op, line@).1,
{
    match parse_i32(trim(line)) {
        None => (Session::Failed(InputParseError::ProductId), nothing()),
        Some(id) => match op {
            Targeted::Fetch => (Session::Running(Phase::Calling(Call::Fetch(id))), nothing()),
            Targeted::Delete => (Session::Running(Phase::Calling(Call::Delete(id))), nothing()),
            Targeted::Edit => start_collecting(Some(id)),
        },
    }
}

/// Takes a line read for `field`.
fn collect(target: Option<i32>, field: Field, draft: Draft, line: &str) -> (r: (
    Session,
    Vec<Output>,
))
    ensures
        r.0@ == on_field(target, field, draft@, line@).0,
        r.1.deep_view() == on_field(target, field, draft@, line@).1,
{
    let filled = draft.with(field, line);
    match field.next() {
        Some(next) => (
            Session::Running(Phase::Collecting { target, field: next, draft: filled }),
            only(stdout_line(next.prompt())),
        ),
        None => (Session::Running(Phase::Pricing { target, draft: filled }), nothing()),
    }
}

/// Takes what the price text was read as.
fn price(target: Option<i32>, draft: Draft, reading: Option<Price>) -> (r: Call)
    ensures
        r@ == call_for(target, draft@, reading),
{
    let fields = draft.into_fields(reading);
    match target {
        None => Call::Create(fields),
        Some(id) => Call::Edit(id, fields),
    }
}

/// A line for the standard output that holds `label` and then `product` in
/// its debug form.
fn record(label: &str, product: Product) -> (r: Output)
    ensures
        r@ == (OutputView::Record { label: label@, product: product@ }),
{
    Output::Record { label: String::from_str(label), product }
}

/// Takes the answer to `call`.
fn conclude(call: Call, result: Result<Reply, ApiError>, label: &str) -> (r: (Session, Vec<Output>))
    ensures
        r.0@ == on_answer(call@, answer_view(result), label@).0,
        r.1.deep_view() == on_answer(call@, answer_view(result), label@).1,
{
    let mut output: Vec<Output> = match (call, result) {
        (call, Err(error)) => {
            let mut line = String::from_str(failure_words(call.operation()));
            line.append(error.message.as_str());
            only(Output::Stderr(line))
        },
        (Call::List, Ok(Reply::Products(products))) => {
            let mut shown = nothing();
            push_out_lines(&mut shown, &product_list(&products, label));
            shown
        },
        (Call::Fetch(_), Ok(Reply::Product(received))) => {
            let mut products: Vec<Received> = Vec::new();
            products.push(received);
            assert(products.deep_view() =~= seq![received@]);
            let mut shown = nothing();
            push_out_lines(&mut shown, &product_list(&products, label));
            shown
        },
        (Call::Create(_), Ok(Reply::Product(received))) => only(
            record("Created Product: ", received.product),
        ),
        (Call::Edit(_, _), Ok(Reply::Product(received))) => only(
            record("Edited Product: ", received.product),
        ),
        (Call::Delete(_), Ok(Reply::Done)) => only(stdout_line("Product deleted successfully")),
        (call, Ok(_)) => {
            let mut line = String::from_str(failure_words(call.operation()));
            line.append("response body does not match the expected shape");
            only(Output::Stderr(line))
        },
    };
    push_round_end(&mut output);
    (Session::Running(Phase::Selecting), output)
}

impl Session {
    /// The session at its start, and the menu to show.
    pub fn start() -> (r: (Session, Vec<Output>))
        ensures
            r.0@ == selecting(),
            r.1.deep_view() == out_lines(menu_lines()),
    {
        let mut lines: Vec<String> = Vec::new();
        push_menu(&mut lines);
        let mut output = nothing();
        push_out_lines(&mut output, &lines);
        (Session::Running(Phase::Selecting), output)
    }

    /// What the session waits for.
    pub fn demand(&self) -> (r: Demand<'_>)
        ensures
            r@ == demand_spec(self@),
    {
        match self {
            Session::Running(Phase::Selecting) => Demand::Line,
            Session::Running(Phase::Targeting(_)) => Demand::Line,
            Session::Running(Phase::Collecting { .. }) => Demand::Line,
            Session::Running(Phase::Pricing { draft, .. }) => Demand::Price(
                draft.price_text.as_str(),
            ),
            Session::Running(Phase::Calling(call)) => Demand::Call(call),
            Session::Exiting => Demand::Stop,
            Session::Failed(error) => Demand::Fail(*error),
        }
    }

    /// Takes `event` and gives the session after it and what is to be shown
    /// on the way, with `label` as the title label of the products shown.
    pub fn step_with_label(self, event: Event, label: &str) -> (r: (Session, Vec<Output>))
        ensures
            r.0@ == step_spec(self@, event@, label@).0,
            r.1.deep_view() == step_spec(self@, event@, label@).1,
    {
        match self {
            Session::Running(phase) => match (phase, event) {
                (Phase::Selecting, Event::Line(line)) => select(line.as_str()),
                (Phase::Targeting(op), Event::Line(line)) => target(op, line.as_str()),
                (Phase::Collecting { target, field, draft }, Event::Line(line)) => collect(
                    target,
                    field,
                    draft,
                    line.as_str(),
                ),
                (Phase::Pricing { target, draft }, Event::PriceRead(reading)) => (
                    Session::Running(Phase::Calling(price(target, draft, reading))),
                    nothing(),
                ),
                (Phase::Calling(call), Event::Answer(result)) => conclude(call, result, label),
                (phase, _) => (Session::Running(phase), nothing()),
            },
            Session::Exiting => (Session::Exiting, nothing()),
            Session::Failed(error) => (Session::Failed(error), nothing()),
        }
    }

    /// Takes `event` and gives the session after it and what is to be shown
    /// on the way.
    ///
    /// The title label of the products shown is painted on the way, and
    /// whether it comes out in blue is settled outside. So what is shown is
    /// what [`Session::step_with_label`] shows for one of the forms that the
    /// painted label may take. The session after the event does not depend on
    /// the label.
    pub fn step(self, event: Event) -> (r: (Session, Vec<Output>))
        ensures
            r.0@ == step_spec(self@, event@, title_label()).0,
            exists|label: Seq<char>| #[trigger]
                is_title_label(label) && r.1.deep_view() == step_spec(self@, event@, label).1,
    {
        let label = painted_title_label();
        self.step_with_label(event, label.as_str())
    }
}

} // verus!
