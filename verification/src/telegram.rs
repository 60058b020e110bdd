//! The keyboard as an inline keyboard of teloxide: one row of callback
//! buttons for each row of the keyboard, each button labeled with its text
//! and carrying the identifier of its position as callback data.
use crate::keyboard::{
    keyboard_rows, lemma_rendered_is_tagged, shown, tagged, Button, Keyboard,
};
use teloxide::types::{InlineKeyboardButton, ReplyMarkup};
use vstd::prelude::*;

verus! {

/// teloxide's button of an inline keyboard.
#[verifier::external_type_specification]
#[verifier::external_body]
pub struct ExInlineKeyboardButton(teloxide::types::InlineKeyboardButton);

/// teloxide's reply markup of a message.
#[verifier::external_type_specification]
#[verifier::external_body]
pub struct ExReplyMarkup(teloxide::types::ReplyMarkup);

/// The text of a callback button and the callback data that it carries.
pub uninterp spec fn callback_of(button: InlineKeyboardButton) -> (Seq<char>, Seq<char>);

/// The rows of an inline keyboard; of each row the text and the callback
/// data of each of its buttons, in order.
pub uninterp spec fn markup_rows(markup: ReplyMarkup) -> Seq<Seq<(Seq<char>, Seq<char>)>>;

/// The text and callback data of every button of `rows`, in place.
pub open spec fn callbacks(rows: Seq<Vec<InlineKeyboardButton>>) -> Seq<Seq<(Seq<char>, Seq<char>)>> {
    Seq::new(rows.len(), |r: int| Seq::new(rows[r].len() as nat, |b: int| callback_of(rows[r][b])))
}

/// `InlineKeyboardButton::callback`: a button with the given text whose
/// kind is callback data, holding the given data.
#[verifier::external_body]
fn callback_button(text: String, data: String) -> (button: InlineKeyboardButton)
    ensures
        callback_of(button) == (text@, data@),
{
    InlineKeyboardButton::callback(text, data)
}

/// `ReplyMarkup::inline_kb`: an inline keyboard that holds the given rows
/// of buttons, each row and each button in the place it was given in.
#[verifier::external_body]
fn inline_kb(rows: Vec<Vec<InlineKeyboardButton>>) -> (markup: ReplyMarkup)
    ensures
        markup_rows(markup) == callbacks(rows@),
{
    ReplyMarkup::inline_kb(rows)
}

/// The inline keyboard of the rendered keyboard `tree`.
pub fn rendered_markup(tree: &Vec<Vec<Button>>) -> (markup: ReplyMarkup)
    ensures
        markup_rows(markup) == shown(tree@),
{
    let mut rows: Vec<Vec<InlineKeyboardButton>> = Vec::new();
    let mut r: usize = 0;
    while r < tree.len()
        invariant
            r <= tree.len(),
            rows.len() == r,
            callbacks(rows@) == shown(tree@).take(r as int),
        decreases tree.len() - r,
    {
        let mut row: Vec<InlineKeyboardButton> = Vec::new();
        let mut b: usize = 0;
        while b < tree[r].len()
            invariant
                r < tree.len(),
                b <= tree[r as int].len(),
                row.len() == b,
                forall|k: int| 0 <= k < b ==> callback_of(#[trigger] row[k]) == shown(tree@)[r as int][k],
            decreases tree[r as int].len() - b,
        {
            let button = callback_button(tree[r][b].label.clone(), tree[r][b].custom_id.clone());
            row.push(button);
            b += 1;
        }
        let ghost before = callbacks(rows@);
        let ghost filled = Seq::new(row.len() as nat, |k: int| callback_of(row[k]));
        rows.push(row);
        proof {
            assert(filled =~= shown(tree@)[r as int]);
            assert(callbacks(rows@) =~= before.push(filled));
            assert(shown(tree@).take(r + 1) =~= shown(tree@).take(r as int).push(
                shown(tree@)[r as int],
            ));
        }
        r += 1;
    }
    proof {
        assert(shown(tree@).take(r as int) =~= shown(tree@));
    }
    inline_kb(rows)
}

/// The inline keyboard of the keyboard that `keyboard` describes.
pub fn inline_keyboard(keyboard: &str) -> (markup: ReplyMarkup)
    ensures
        markup_rows(markup) == tagged(keyboard_rows(keyboard@)),
{
    let tree = Keyboard::parse(keyboard).render();
    proof {
        lemma_rendered_is_tagged(tree@, keyboard_rows(keyboard@));
    }
    rendered_markup(&tree)
}

} // verus!
