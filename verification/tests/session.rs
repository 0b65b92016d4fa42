use store_client::collect::{Draft, Field};
use store_client::error::{ApiError, ApiErrorKind, InputParseError};
use store_client::product::{Fields, Price, Product, Received};
use store_client::request::{Call, Method, Operation};
use store_client::session::{Demand, Event, Output, Phase, Reply, Session, Targeted};

const SEPARATOR: &str = "----------------------------------";

fn line(text: &str) -> Event {
    Event::Line(String::from(text))
}

fn out(text: &str) -> Output {
    Output::Stdout(String::from(text))
}

fn menu() -> Vec<Output> {
    vec![
        out("This is a simple REST API client for a fake store API."),
        out("Select an operation:"),
        out("1. Get Products"),
        out("2. Get Product by ID"),
        out("3. Create Product"),
        out("4. Delete Product"),
        out("5. Edit Product by ID"),
        out("0. Exit"),
    ]
}

fn round_end() -> Vec<Output> {
    let mut end = vec![out(""), out(""), out("")];
    end.extend(menu());
    end
}

fn closed(mut shown: Vec<Output>) -> Vec<Output> {
    shown.extend(round_end());
    shown
}

fn selecting() -> Session {
    Session::Running(Phase::Selecting)
}

fn calling(call: Call) -> Session {
    Session::Running(Phase::Calling(call))
}

fn failure(kind: ApiErrorKind, message: &str) -> ApiError {
    ApiError { kind, message: String::from(message) }
}

fn received(id: Option<i32>, title: &str, price: f64) -> Received {
    Received {
        product: Product {
            id,
            title: String::from(title),
            price: Price { bits: price.to_bits() },
            description: String::from("Plain"),
            category: String::from("misc"),
            image: String::from("https://example.com/a.png"),
        },
        price_text: format!("{:.2}", price),
    }
}

fn entered(price: f64) -> Fields {
    Fields {
        title: String::from("Mug"),
        price: Price { bits: price.to_bits() },
        description: String::from("Holds tea"),
        category: String::from("kitchen"),
    }
}

fn read_price(text: &str) -> Option<Price> {
    text.parse::<f64>().ok().map(|value| Price { bits: value.to_bits() })
}

/// Runs the session as a caller would: lines come from `lines`, every call
/// is answered by `answer`, and the run ends when the session has ended or
/// asks for a line that is not there.
fn drive(
    lines: &[&str],
    answer: &dyn Fn(&Call) -> Result<Reply, ApiError>,
) -> (Session, Vec<Output>, Vec<Call>) {
    let (mut session, mut shown) = Session::start();
    let mut calls: Vec<Call> = Vec::new();
    let mut next_line: usize = 0;
    loop {
        let event = match session.demand() {
            Demand::Line => {
                if next_line == lines.len() {
                    return (session, shown, calls);
                }
                next_line += 1;
                line(lines[next_line - 1])
            }
            Demand::Price(text) => Event::PriceRead(read_price(text)),
            Demand::Call(call) => {
                calls.push(call.clone());
                Event::Answer(answer(call))
            }
            Demand::Stop => return (session, shown, calls),
            Demand::Fail(_) => return (session, shown, calls),
        };
        let (next, output) = session.step_with_label(event, "Title:");
        shown.extend(output);
        session = next;
    }
}

fn one_product(_call: &Call) -> Result<Reply, ApiError> {
    Ok(Reply::Product(received(Some(21), "Mug", 12.5)))
}

fn fitting(call: &Call) -> Result<Reply, ApiError> {
    match call {
        Call::List => Ok(Reply::Products(vec![received(Some(1), "Mug", 12.5)])),
        Call::Delete(_) => Ok(Reply::Done),
        _ => one_product(call),
    }
}

fn refused(_call: &Call) -> Result<Reply, ApiError> {
    Err(failure(ApiErrorKind::Network, "connection refused"))
}

#[test]
fn start_shows_the_menu_and_waits_for_a_line() {
    let (session, shown) = Session::start();
    assert_eq!(session, selecting());
    assert_eq!(shown, menu());
    assert!(matches!(session.demand(), Demand::Line));
}

#[test]
fn selector_zero_ends_the_session() {
    let (session, shown) = selecting().step_with_label(line("0\n"), "Title:");
    assert_eq!(session, Session::Exiting);
    assert_eq!(shown, vec![out("Exiting...")]);
    assert!(matches!(session.demand(), Demand::Stop));
}

#[test]
fn selector_zero_in_other_spellings() {
    for text in ["0", " 0 \n", "+0\n", "-0\n", "000\r\n", "\t0"] {
        let (session, shown) = selecting().step_with_label(line(text), "Title:");
        assert_eq!(session, Session::Exiting, "{:?}", text);
        assert_eq!(shown, vec![out("Exiting...")]);
    }
}

#[test]
fn nothing_follows_the_exit() {
    let (session, shown, calls) = drive(&["0\n", "1\n", "3\n"], &fitting);
    assert_eq!(session, Session::Exiting);
    assert!(calls.is_empty());
    let mut expected = menu();
    expected.push(out("Exiting..."));
    assert_eq!(shown, expected);
    let (after, more) = session.step_with_label(line("1\n"), "Title:");
    assert_eq!(after, Session::Exiting);
    assert!(more.is_empty());
}

#[test]
fn selector_that_is_no_number_fails() {
    let (session, shown) = selecting().step_with_label(line("abc\n"), "Title:");
    assert_eq!(session, Session::Failed(InputParseError::Selector));
    assert!(shown.is_empty());
    match session.demand() {
        Demand::Fail(error) => {
            assert_eq!(error, InputParseError::Selector);
            assert_eq!(error.message(), "Please enter a number");
        }
        _ => panic!("the session must have failed"),
    }
}

#[test]
fn selector_failures_of_other_kinds() {
    for text in ["", "\n", "-\n", "+\n", "1.5\n", "one\n", "1 2\n", "--1\n", "3x\n", "1e3\n"] {
        let (session, shown) = selecting().step_with_label(line(text), "Title:");
        assert_eq!(session, Session::Failed(InputParseError::Selector), "{:?}", text);
        assert!(shown.is_empty());
    }
}

#[test]
fn failed_session_stays_failed() {
    let (session, shown, calls) = drive(&["abc\n", "1\n"], &fitting);
    assert_eq!(session, Session::Failed(InputParseError::Selector));
    assert_eq!(shown, menu());
    assert!(calls.is_empty());
    let (after, more) = session.step_with_label(line("1\n"), "Title:");
    assert_eq!(after, Session::Failed(InputParseError::Selector));
    assert!(more.is_empty());
}

#[test]
fn unknown_selector_is_pointed_out_and_the_menu_comes_back() {
    let texts = [
        "6\n",
        "9\n",
        "42\n",
        "-1\n",
        " -5 \n",
        "+6\n",
        "4294967295\n",
        "4294967296\n",
        "4294967297\n",
        "9223372036854775808\n",
        "-9223372036854775809\n",
        "18446744073709551617\n",
        "100000000000000000000000000000000000000000000000000\n",
        "-100000000000000000000000000000000000000000000000000\n",
    ];
    for text in texts {
        let (session, shown) = selecting().step_with_label(line(text), "Title:");
        assert_eq!(session, selecting(), "{:?}", text);
        assert_eq!(shown, closed(vec![out("Invalid choice, please select 1, 2, or 3.")]));
    }
}

#[test]
fn negative_selector_is_an_invalid_choice_and_the_loop_goes_on() {
    let (session, shown, calls) = drive(&["-1\n", "4\n", "3\n", "0\n"], &fitting);
    assert_eq!(session, Session::Exiting);
    assert_eq!(calls, vec![Call::Delete(3)]);
    assert_eq!(calls[0].request().method, Method::Delete);
    assert_eq!(calls[0].request().url, "https://fakestoreapi.com/products/3");
    let mut expected = menu();
    expected.push(out("Invalid choice, please select 1, 2, or 3."));
    expected.extend(round_end());
    expected.push(out("Enter product ID to delete:"));
    expected.push(out("Product deleted successfully"));
    expected.extend(round_end());
    expected.push(out("Exiting..."));
    assert_eq!(shown, expected);
}

#[test]
fn reply_of_the_wrong_shape_is_reported_as_a_failure() {
    let cases = [
        (Call::List, Reply::Done, "Error fetching products: "),
        (Call::List, Reply::Product(received(Some(1), "Mug", 1.0)), "Error fetching products: "),
        (Call::Fetch(1), Reply::Products(Vec::new()), "Error fetching product: "),
        (Call::Fetch(1), Reply::Done, "Error fetching product: "),
        (Call::Create(entered(1.0)), Reply::Done, "Error creating product: "),
        (Call::Edit(1, entered(1.0)), Reply::Products(Vec::new()), "Error editing product: "),
        (Call::Delete(1), Reply::Products(Vec::new()), "Error deleting product: "),
        (Call::Delete(1), Reply::Product(received(Some(1), "Mug", 1.0)), "Error deleting product: "),
    ];
    for (call, reply, words) in cases {
        let (session, shown) = calling(call).step_with_label(Event::Answer(Ok(reply)), "Title:");
        assert_eq!(session, selecting());
        let report = format!("{}response body does not match the expected shape", words);
        assert_eq!(shown, closed(vec![Output::Stderr(report)]));
    }
}

#[test]
fn wrong_shape_does_not_make_the_call_again() {
    let misfit = |_call: &Call| -> Result<Reply, ApiError> { Ok(Reply::Done) };
    let (session, _, calls) = drive(&["1\n"], &misfit);
    assert_eq!(session, selecting());
    assert_eq!(calls, vec![Call::List]);
}

#[test]
fn list_round() {
    let (session, shown) = selecting().step_with_label(line("1\n"), "Title:");
    assert_eq!(session, calling(Call::List));
    assert!(shown.is_empty());
    match session.demand() {
        Demand::Call(call) => {
            assert_eq!(call.request().method, Method::Get);
            assert_eq!(call.request().url, "https://fakestoreapi.com/products");
        }
        _ => panic!("a call must be under way"),
    }
    let products = vec![received(Some(1), "Mug", 12.5), received(Some(2), "Cap", 3.0)];
    let (session, shown) =
        session.step_with_label(Event::Answer(Ok(Reply::Products(products))), "Title:");
    assert_eq!(session, selecting());
    assert_eq!(
        shown,
        closed(vec![
            out(SEPARATOR),
            out("ID: 1"),
            out("Title: Mug"),
            out("Price: $12.50"),
            out("Category: misc"),
            out("Description: Plain"),
            out("Image URL: https://example.com/a.png"),
            out(SEPARATOR),
            out("ID: 2"),
            out("Title: Cap"),
            out("Price: $3.00"),
            out("Category: misc"),
            out("Description: Plain"),
            out("Image URL: https://example.com/a.png"),
            out(SEPARATOR),
        ])
    );
}

#[test]
fn list_of_nothing_shows_one_separator() {
    let (_, shown) =
        calling(Call::List).step_with_label(Event::Answer(Ok(Reply::Products(Vec::new()))), "Title:");
    assert_eq!(shown, closed(vec![out(SEPARATOR)]));
}

#[test]
fn fetch_round() {
    let (session, shown) = selecting().step_with_label(line("2\n"), "Title:");
    assert_eq!(session, Session::Running(Phase::Targeting(Targeted::Fetch)));
    assert_eq!(shown, vec![out("Enter product ID:")]);
    assert!(matches!(session.demand(), Demand::Line));
    let (session, shown) = session.step_with_label(line(" 7 \n"), "Title:");
    assert_eq!(session, calling(Call::Fetch(7)));
    assert!(shown.is_empty());
    let (session, shown) = session.step_with_label(
        Event::Answer(Ok(Reply::Product(received(Some(7), "Mug", 12.5)))),
        "Title:",
    );
    assert_eq!(session, selecting());
    assert_eq!(
        shown,
        closed(vec![
            out(SEPARATOR),
            out("ID: 7"),
            out("Title: Mug"),
            out("Price: $12.50"),
            out("Category: misc"),
            out("Description: Plain"),
            out("Image URL: https://example.com/a.png"),
            out(SEPARATOR),
        ])
    );
}

#[test]
fn fetch_of_a_missing_product_is_reported_and_the_menu_comes_back() {
    let missing = |_call: &Call| -> Result<Reply, ApiError> {
        Err(failure(ApiErrorKind::Decode, "error decoding response body"))
    };
    let (session, shown, calls) = drive(&["2\n", "99999\n"], &missing);
    assert_eq!(session, selecting());
    assert_eq!(calls, vec![Call::Fetch(99999)]);
    let mut expected = menu();
    expected.push(out("Enter product ID:"));
    expected.push(Output::Stderr(String::from(
        "Error fetching product: error decoding response body",
    )));
    expected.extend(round_end());
    assert_eq!(shown, expected);
    assert!(matches!(session.demand(), Demand::Line));
}

#[test]
fn identifier_that_is_no_number_fails() {
    for op in [Targeted::Fetch, Targeted::Delete, Targeted::Edit] {
        for text in ["abc\n", "\n", "", "1.5\n", "2147483648\n", "- 1\n"] {
            let session = Session::Running(Phase::Targeting(op));
            let (session, shown) = session.step_with_label(line(text), "Title:");
            assert_eq!(session, Session::Failed(InputParseError::ProductId), "{:?}", text);
            assert!(shown.is_empty());
        }
    }
    assert_eq!(InputParseError::ProductId.message(), "Please enter a valid ID");
}

#[test]
fn identifier_may_be_negative() {
    let session = Session::Running(Phase::Targeting(Targeted::Delete));
    let (session, _) = session.step_with_label(line("-5\n"), "Title:");
    assert_eq!(session, calling(Call::Delete(-5)));
}

#[test]
fn create_round() {
    let (session, shown) = selecting().step_with_label(line("3\n"), "Title:");
    assert_eq!(
        session,
        Session::Running(Phase::Collecting {
            target: None,
            field: Field::Title,
            draft: Draft::empty()
        })
    );
    assert_eq!(shown, vec![out("Name of the product:")]);
    let (session, shown) = session.step_with_label(line("  Mug \n"), "Title:");
    assert_eq!(shown, vec![out("Price of the product:")]);
    let (session, shown) = session.step_with_label(line("12.50\n"), "Title:");
    assert_eq!(shown, vec![out("Description of the product:")]);
    let (session, shown) = session.step_with_label(line("Holds tea\n"), "Title:");
    assert_eq!(shown, vec![out("Category of the product:")]);
    let (session, shown) = session.step_with_label(line("kitchen\r\n"), "Title:");
    assert!(shown.is_empty());
    match session.demand() {
        Demand::Price(text) => assert_eq!(text, "12.50"),
        _ => panic!("the price text must be asked for"),
    }
    let (session, shown) =
        session.step_with_label(Event::PriceRead(read_price("12.50")), "Title:");
    assert!(shown.is_empty());
    assert_eq!(session, calling(Call::Create(entered(12.5))));
    let created = received(Some(21), "Mug", 12.5);
    let (session, shown) =
        session.step_with_label(Event::Answer(Ok(Reply::Product(created.clone()))), "Title:");
    assert_eq!(session, selecting());
    assert_eq!(
        shown,
        closed(vec![Output::Record {
            label: String::from("Created Product: "),
            product: created.product
        }])
    );
}

#[test]
fn price_that_is_no_number_is_sent_as_zero() {
    let (session, _, calls) = drive(&["3\n", "Mug\n", "abc\n", "Holds tea\n", "kitchen\n"], &fitting);
    assert_eq!(session, selecting());
    assert_eq!(calls.len(), 1);
    let request = calls[0].request();
    assert_eq!(request.method, Method::Post);
    let body = request.body.expect("a creation sends a product");
    assert_eq!(f64::from_bits(body.price.bits), 0.0);
    assert_eq!(body.price, Price::zero());
    assert_eq!(body.id, None);
    assert_eq!(body.title, "Mug");
    assert_eq!(body.description, "Holds tea");
    assert_eq!(body.category, "kitchen");
    assert_eq!(body.image, "https://example.com/image.jpg");
}

#[test]
fn empty_price_is_sent_as_zero() {
    let (_, _, calls) = drive(&["3\n", "Mug\n", "\n", "Holds tea\n", "kitchen\n"], &fitting);
    assert_eq!(calls, vec![Call::Create(entered(0.0))]);
}

#[test]
fn price_is_read_without_the_whitespace_around_it() {
    let (_, _, calls) = drive(&["3\n", "Mug\n", "  19.99 \n", "Holds tea\n", "kitchen\n"], &fitting);
    assert_eq!(calls, vec![Call::Create(entered(19.99))]);
}

#[test]
fn delete_round() {
    let (session, shown) = selecting().step_with_label(line("4\n"), "Title:");
    assert_eq!(session, Session::Running(Phase::Targeting(Targeted::Delete)));
    assert_eq!(shown, vec![out("Enter product ID to delete:")]);
    let (session, shown) = session.step_with_label(line("5\n"), "Title:");
    assert_eq!(session, calling(Call::Delete(5)));
    assert!(shown.is_empty());
    let (session, shown) = session.step_with_label(Event::Answer(Ok(Reply::Done)), "Title:");
    assert_eq!(session, selecting());
    assert_eq!(shown, closed(vec![out("Product deleted successfully")]));
}

#[test]
fn edit_round() {
    let (session, shown) = selecting().step_with_label(line("5\n"), "Title:");
    assert_eq!(session, Session::Running(Phase::Targeting(Targeted::Edit)));
    assert_eq!(shown, vec![out("Enter product ID to edit:")]);
    let (session, shown) = session.step_with_label(line("12\n"), "Title:");
    assert_eq!(
        session,
        Session::Running(Phase::Collecting {
            target: Some(12),
            field: Field::Title,
            draft: Draft::empty()
        })
    );
    assert_eq!(shown, vec![out("Name of the product:")]);
    let (session, _) = session.step_with_label(line("Mug\n"), "Title:");
    let (session, _) = session.step_with_label(line("7\n"), "Title:");
    let (session, _) = session.step_with_label(line("Holds tea\n"), "Title:");
    let (session, _) = session.step_with_label(line("kitchen\n"), "Title:");
    let (session, _) = session.step_with_label(Event::PriceRead(read_price("7")), "Title:");
    assert_eq!(session, calling(Call::Edit(12, entered(7.0))));
    match session.demand() {
        Demand::Call(call) => {
            let request = call.request();
            assert_eq!(request.method, Method::Put);
            assert_eq!(request.url, "https://fakestoreapi.com/products/12");
            assert_eq!(request.body.expect("an edit sends a product").id, Some(12));
        }
        _ => panic!("a call must be under way"),
    }
    let edited = received(Some(12), "Mug", 7.0);
    let (session, shown) =
        session.step_with_label(Event::Answer(Ok(Reply::Product(edited.clone()))), "Title:");
    assert_eq!(session, selecting());
    assert_eq!(
        shown,
        closed(vec![Output::Record {
            label: String::from("Edited Product: "),
            product: edited.product
        }])
    );
}

#[test]
fn every_selector_runs_its_operation_once() {
    let rounds: [(&[&str], Operation); 5] = [
        (&["1\n"], Operation::List),
        (&["2\n", "3\n"], Operation::Fetch),
        (&["3\n", "Mug\n", "1\n", "Holds tea\n", "kitchen\n"], Operation::Create),
        (&["4\n", "3\n"], Operation::Delete),
        (&["5\n", "3\n", "Mug\n", "1\n", "Holds tea\n", "kitchen\n"], Operation::Edit),
    ];
    for (lines, operation) in rounds {
        for answer in [&fitting as &dyn Fn(&Call) -> Result<Reply, ApiError>, &refused] {
            let (session, shown, calls) = drive(lines, answer);
            assert_eq!(session, selecting());
            assert_eq!(calls.len(), 1);
            assert_eq!(calls[0].operation(), operation);
            assert!(shown.ends_with(&round_end()));
        }
    }
}

#[test]
fn operations_follow_one_another() {
    let (session, _, calls) = drive(&["1\n", "9\n", "4\n", "2\n", "2\n", "8\n", "0\n", "1\n"], &fitting);
    assert_eq!(session, Session::Exiting);
    assert_eq!(calls, vec![Call::List, Call::Delete(2), Call::Fetch(8)]);
}

#[test]
fn failures_are_reported_by_operation() {
    let cases = [
        (Call::List, "Error fetching products: down"),
        (Call::Fetch(1), "Error fetching product: down"),
        (Call::Create(entered(1.0)), "Error creating product: down"),
        (Call::Delete(1), "Error deleting product: down"),
        (Call::Edit(1, entered(1.0)), "Error editing product: down"),
    ];
    for (call, report) in cases {
        for kind in [ApiErrorKind::Network, ApiErrorKind::Decode] {
            let (session, shown) = calling(call.clone())
                .step_with_label(Event::Answer(Err(failure(kind, "down"))), "Title:");
            assert_eq!(session, selecting());
            assert_eq!(shown, closed(vec![Output::Stderr(String::from(report))]));
        }
    }
}

#[test]
fn events_that_are_not_awaited_change_nothing() {
    let cases = [
        (selecting(), Event::PriceRead(None)),
        (selecting(), Event::Answer(Ok(Reply::Done))),
        (Session::Running(Phase::Targeting(Targeted::Edit)), Event::PriceRead(None)),
        (calling(Call::List), line("1\n")),
        (calling(Call::Delete(1)), Event::PriceRead(None)),
        (
            Session::Running(Phase::Pricing { target: None, draft: Draft::empty() }),
            line("1\n"),
        ),
        (Session::Exiting, line("1\n")),
        (Session::Failed(InputParseError::ProductId), line("1\n")),
    ];
    for (session, event) in cases {
        let before = session.clone();
        let (after, shown) = session.step_with_label(event, "Title:");
        assert_eq!(after, before);
        assert!(shown.is_empty());
    }
}

#[test]
fn step_paints_the_title_label() {
    let answer = || Event::Answer(Ok(Reply::Product(received(Some(7), "Mug", 12.5))));
    colored::control::set_override(true);
    let (session, shown) = calling(Call::Fetch(7)).step(answer());
    assert_eq!(session, selecting());
    assert_eq!(shown[2], out("\u{1b}[34mTitle:\u{1b}[0m Mug"));
    colored::control::set_override(false);
    let (session, shown) = calling(Call::Fetch(7)).step(answer());
    assert_eq!(session, selecting());
    assert_eq!(shown[2], out("Title: Mug"));
    assert_eq!(shown.len(), 8 + 11);
    colored::control::unset_override();
}

#[test]
fn step_without_products_does_not_depend_on_colours() {
    let (session, shown) = selecting().step(line("4\n"));
    assert_eq!(session, Session::Running(Phase::Targeting(Targeted::Delete)));
    assert_eq!(shown, vec![out("Enter product ID to delete:")]);
}

#[test]
fn fields_are_asked_for_in_order() {
    assert_eq!(Field::Title.next(), Some(Field::Price));
    assert_eq!(Field::Price.next(), Some(Field::Description));
    assert_eq!(Field::Description.next(), Some(Field::Category));
    assert_eq!(Field::Category.next(), None);
    assert_eq!(Field::Title.prompt(), "Name of the product:");
    assert_eq!(Field::Price.prompt(), "Price of the product:");
    assert_eq!(Field::Description.prompt(), "Description of the product:");
    assert_eq!(Field::Category.prompt(), "Category of the product:");
    assert_eq!(Targeted::Fetch.prompt(), "Enter product ID:");
    assert_eq!(Targeted::Delete.prompt(), "Enter product ID to delete:");
    assert_eq!(Targeted::Edit.prompt(), "Enter product ID to edit:");
}

#[test]
fn draft_keeps_each_field_trimmed() {
    let draft = Draft::empty()
        .with(Field::Title, "  Mug \n")
        .with(Field::Price, " 1e1\n")
        .with(Field::Description, "Holds  tea\r\n")
        .with(Field::Category, "\tkitchen");
    assert_eq!(
        draft,
        Draft {
            title: String::from("Mug"),
            price_text: String::from("1e1"),
            description: String::from("Holds  tea"),
            category: String::from("kitchen"),
        }
    );
    let fields = draft.clone().into_fields(read_price("1e1"));
    assert_eq!(f64::from_bits(fields.price.bits), 10.0);
    assert_eq!(fields.title, "Mug");
    let fallen_back = draft.into_fields(None);
    assert_eq!(f64::from_bits(fallen_back.price.bits), 0.0);
}
