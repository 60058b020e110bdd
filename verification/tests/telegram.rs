use prompt_bot::keyboard::Keyboard;
use prompt_bot::telegram::{inline_keyboard, rendered_markup};
use teloxide::types::{InlineKeyboardButton, InlineKeyboardButtonKind, ReplyMarkup};

fn callback(text: &str, data: &str) -> InlineKeyboardButton {
    InlineKeyboardButton {
        text: String::from(text),
        kind: InlineKeyboardButtonKind::CallbackData(String::from(data)),
    }
}

#[test]
fn inline_keyboard_for_yes_no_maybe() {
    let wanted = ReplyMarkup::inline_kb(vec![
        vec![callback("Yes", "id_0_0"), callback("No", "id_0_1")],
        vec![callback("Maybe", "id_1_0")],
    ]);
    assert_eq!(inline_keyboard("Yes,No:Maybe"), wanted);
}

#[test]
fn inline_keyboard_keeps_empty_labels() {
    let wanted = ReplyMarkup::inline_kb(vec![
        vec![callback("", "id_0_0"), callback("", "id_0_1")],
        vec![callback("", "id_1_0")],
    ]);
    assert_eq!(inline_keyboard(",:"), wanted);
}

#[test]
fn rendered_markup_keeps_text_and_data_apart() {
    let tree = Keyboard::parse("left,right").render();
    let wanted =
        ReplyMarkup::inline_kb(vec![vec![callback("left", "id_0_0"), callback("right", "id_0_1")]]);
    assert_eq!(rendered_markup(&tree), wanted);
    assert_ne!(
        rendered_markup(&tree),
        ReplyMarkup::inline_kb(vec![vec![callback("id_0_0", "left"), callback("id_0_1", "right")]])
    );
}
