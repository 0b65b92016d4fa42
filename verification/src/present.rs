//! How products are laid out as lines of text.

use crate::number::{push_signed_decimal, signed_decimal};
use crate::product::{Received, ReceivedView};
use colored::Colorize;
use vstd::prelude::*;
use vstd::string::StringExecFns;

verus! {

/// The escape sequence that switches the foreground colour to blue.
pub open spec fn blue_on() -> Seq<char> {
    "\x1b[34m"@
}

/// The escape sequence that switches all colours and styles off.
pub open spec fn colour_off() -> Seq<char> {
    "\x1b[0m"@
}

/// Whether `painted` is what painting `text` in blue may give: `text` as it
/// is, `text` set in blue, or `text` with nothing but the switching off
/// behind it.
pub open spec fn is_blue_rendering(painted: Seq<char>, text: Seq<char>) -> bool {
    ||| painted == text
    ||| painted == blue_on() + text + colour_off()
    ||| painted == text + colour_off()
}

/// The label that stands before a product's title, unpainted.
pub open spec fn title_label() -> Seq<char> {
    "Title:"@
}

/// Whether `label` is what painting the title label in blue may give.
pub open spec fn is_title_label(label: Seq<char>) -> bool {
    is_blue_rendering(label, title_label())
}

/// `text` set in blue for a terminal.
///
/// Calls `colored::Colorize::blue` on `text` and writes the outcome to a
/// string. Whether `colored` paints at all is read from settings of the
/// process, so the contract leaves the outcomes open: the text comes back
/// either unchanged or between the escape sequences for blue and for reset.
/// `colored` reads the setting more than once while it writes, so where the
/// setting is changed in between, the text may also come back with the reset
/// sequence alone behind it. This is claimed for text that holds no escape
/// character; `colored` rewrites reset sequences that it finds inside the
/// text.
#[verifier::external_body]
fn paint_blue(text: &str) -> (painted: String)
    ensures
        !text@.contains('\x1b') ==> is_blue_rendering(painted@, text@),
{
    text.blue().to_string()
}

/// The title label as it is to be shown: in blue where colours are in use.
/// Which of the outcomes of painting it is comes from outside.
pub fn painted_title_label() -> (label: String)
    ensures
        is_title_label(label@),
{
    proof {
        reveal_strlit("Title:");
        assert(!"Title:"@.contains('\x1b')) by {
            assert forall|i: int| 0 <= i < "Title:"@.len() implies "Title:"@[i] != '\x1b' by {}
        }
    }
    paint_blue("Title:")
}

/// The line that separates one product from the next.
pub open spec fn separator() -> Seq<char> {
    "----------------------------------"@
}

/// The number shown for a product's identifier: `-1` stands for none.
pub open spec fn shown_id(id: Option<i32>) -> int {
    match id {
        Some(n) => n as int,
        None => -1,
    }
}

/// The seven lines of one product: a separator, then identifier, title,
/// price, category, description and image address, each after its label.
pub open spec fn block_lines(received: ReceivedView, label: Seq<char>) -> Seq<Seq<char>> {
    seq![
        separator(),
        "ID: "@ + signed_decimal(shown_id(received.product.id)),
        label + " "@ + received.product.title,
        "Price: $"@ + received.price_text,
        "Category: "@ + received.product.category,
        "Description: "@ + received.product.description,
        "Image URL: "@ + received.product.image,
    ]
}

/// The blocks of `products`, one after the other, in their order.
pub open spec fn blocks(products: Seq<ReceivedView>, label: Seq<char>) -> Seq<Seq<char>>
    decreases products.len(),
{
    if products.len() == 0 {
        Seq::empty()
    } else {
        blocks(products.drop_last(), label) + block_lines(products.last(), label)
    }
}

/// The lines of a list of products: their blocks, and one separator at the
/// end.
pub open spec fn list_lines(products: Seq<ReceivedView>, label: Seq<char>) -> Seq<Seq<char>> {
    blocks(products, label).push(separator())
}

/// A list of `n` products is shown as `n` blocks of seven lines, in the order
/// of the products, each beginning with a separator, and one closing
/// separator: `7 * n + 1` lines in all.
pub proof fn lemma_list_layout(products: Seq<ReceivedView>, label: Seq<char>)
    ensures
        list_lines(products, label).len() == 7 * products.len() + 1,
        list_lines(products, label).last() == separator(),
        forall|i: int|
            0 <= i < products.len() ==> #[trigger] list_lines(products, label).subrange(
                7 * i,
                7 * i + 7,
            ) == block_lines(products[i], label),
        forall|i: int|
            0 <= i < products.len() ==> #[trigger] list_lines(products, label)[7 * i]
                == separator(),
    decreases products.len(),
{
    let all = list_lines(products, label);
    if products.len() > 0 {
        let front = products.drop_last();
        let n = front.len() as int;
        lemma_list_layout(front, label);
        let before = list_lines(front, label);
        assert forall|i: int| 0 <= i < products.len() implies #[trigger] all.subrange(
            7 * i,
            7 * i + 7,
        ) == block_lines(products[i], label) by {
            if i < n {
                assert(all.subrange(7 * i, 7 * i + 7) =~= before.subrange(7 * i, 7 * i + 7));
            }
        }
        assert forall|i: int| 0 <= i < products.len() implies #[trigger] all[7 * i]
            == separator() by {
            assert(all.subrange(7 * i, 7 * i + 7)[0] == all[7 * i]);
        }
    }
}

/// Appends the lines of one product to `lines`.
pub fn push_block(lines: &mut Vec<String>, received: &Received, label: &str)
    ensures
        final(lines).deep_view() == old(lines).deep_view() + block_lines(received@, label@),
{
    lines.push(String::from_str("----------------------------------"));
    let mut id_line = String::from_str("ID: ");
    let id: i32 = match received.product.id {
        Some(n) => n,
        None => -1,
    };
    push_signed_decimal(&mut id_line, id);
    lines.push(id_line);
    let mut title_line = String::from_str(label);
    title_line.append(" ");
    title_line.append(received.product.title.as_str());
    lines.push(title_line);
    let mut price_line = String::from_str("Price: $");
    price_line.append(received.price_text.as_str());
    lines.push(price_line);
    let mut category_line = String::from_str("Category: ");
    category_line.append(received.product.category.as_str());
    lines.push(category_line);
    let mut description_line = String::from_str("Description: ");
    description_line.append(received.product.description.as_str());
    lines.push(description_line);
    let mut image_line = String::from_str("Image URL: ");
    image_line.append(received.product.image.as_str());
    lines.push(image_line);
}

/// The lines of one product.
pub fn product_block(received: &Received, label: &str) -> (lines: Vec<String>)
    ensures
        lines.deep_view() == block_lines(received@, label@),
{
    let mut lines: Vec<String> = Vec::new();
    push_block(&mut lines, received, label);
    lines
}

/// The lines of a list of products: the block of each, in their order, and a
/// closing separator.
pub fn product_list(products: &Vec<Received>, label: &str) -> (lines: Vec<String>)
    ensures
        lines.deep_view() == list_lines(products.deep_view(), label@),
{
    let mut lines: Vec<String> = Vec::new();
    let ghost all = products.deep_view();
    let mut i: usize = 0;
    while i < products.len()
        invariant
            i <= products.len(),
            all == products.deep_view(),
            lines.deep_view() == blocks(all.subrange(0, i as int), label@),
        decreases products.len() - i,
    {
        push_block(&mut lines, &products[i], label);
        assert(all.subrange(0, i + 1).drop_last() =~= all.subrange(0, i as int));
        i = i + 1;
    }
    assert(all.subrange(0, i as int) =~= all);
    lines.push(String::from_str("----------------------------------"));
    lines
}

} // verus!
