//! The keyboard as message components of serenity: one action row for each
//! row of the keyboard, one primary button for each label, tagged with the
//! identifier of its position.
use crate::keyboard::{
    keyboard_rows, lemma_rendered_is_tagged, shown, tagged, Button, Keyboard,
};
use serenity::builder::{CreateActionRow, CreateButton, CreateComponents};
use serenity::model::interactions::message_component::ButtonStyle;
use vstd::prelude::*;

verus! {

/// serenity's builder of the action rows of a message.
#[verifier::external_type_specification]
#[verifier::external_body]
pub struct ExCreateComponents(serenity::builder::CreateComponents);

/// serenity's builder of one action row.
#[verifier::external_type_specification]
#[verifier::external_body]
pub struct ExCreateActionRow(serenity::builder::CreateActionRow);

/// serenity's builder of one button.
#[verifier::external_type_specification]
#[verifier::external_body]
pub struct ExCreateButton(serenity::builder::CreateButton);

/// The action rows that a builder holds, in order; of each row the style
/// number, the label and the custom id of each of its buttons, in order.
pub uninterp spec fn action_rows(components: CreateComponents) -> Seq<Seq<(int, Seq<char>, Seq<char>)>>;

/// The style number, the label and the custom id of each button that a row
/// holds, in order.
pub uninterp spec fn row_buttons(row: CreateActionRow) -> Seq<(int, Seq<char>, Seq<char>)>;

/// Whether a row can take a further button: its list of components, where it
/// has one, is a list.
pub uninterp spec fn takes_buttons(row: CreateActionRow) -> bool;

/// The style number, the label and the custom id that a button builder holds.
pub uninterp spec fn button_entries(button: CreateButton) -> (int, Seq<char>, Seq<char>);

/// `CreateComponents::default`: a builder that holds no row.
#[verifier::external_body]
fn new_components() -> (components: CreateComponents)
    ensures
        action_rows(components) == Seq::<Seq<(int, Seq<char>, Seq<char>)>>::empty(),
{
    CreateComponents::default()
}

/// `CreateActionRow::default`: a row without any entry, so without buttons,
/// that can take buttons.
#[verifier::external_body]
fn new_row() -> (row: CreateActionRow)
    ensures
        row_buttons(row) == Seq::<(int, Seq<char>, Seq<char>)>::empty(),
        takes_buttons(row),
{
    CreateActionRow::default()
}

/// `CreateButton::default`: a button without any entry. Nothing is claimed of it.
#[verifier::external_body]
fn new_button() -> CreateButton {
    CreateButton::default()
}

/// `CreateButton::style` with the primary style: it sets the entry `style`
/// to that style's number, which is one, and leaves label and custom id as
/// they were.
#[verifier::external_body]
fn set_primary_style(button: &mut CreateButton)
    ensures
        button_entries(*final(button)) == (
            primary_style(),
            button_entries(*old(button)).1,
            button_entries(*old(button)).2,
        ),
{
    button.style(ButtonStyle::Primary);
}

/// `CreateButton::label`: it sets the entry `label` to the given text and
/// leaves style and custom id as they were.
#[verifier::external_body]
fn set_label(button: &mut CreateButton, label: &str)
    ensures
        button_entries(*final(button)) == (
            button_entries(*old(button)).0,
            label@,
            button_entries(*old(button)).2,
        ),
{
    button.label(label);
}

/// `CreateButton::custom_id`: it sets the entry `custom_id` to the given text
/// and leaves style and label as they were.
#[verifier::external_body]
fn set_custom_id(button: &mut CreateButton, id: &str)
    ensures
        button_entries(*final(button)) == (
            button_entries(*old(button)).0,
            button_entries(*old(button)).1,
            id@,
        ),
{
    button.custom_id(id);
}

/// `CreateActionRow::add_button`: it appends the built button to the row's
/// list of components, which it creates where there is none. It panics on a
/// row whose entry `components` is no list, which `requires` leaves out.
#[verifier::external_body]
fn add_button(row: &mut CreateActionRow, button: CreateButton)
    requires
        takes_buttons(*old(row)),
    ensures
        takes_buttons(*final(row)),
        row_buttons(*final(row)) == row_buttons(*old(row)).push(button_entries(button)),
{
    row.add_button(button);
}

/// `CreateComponents::add_action_row`: it builds the row and appends it to
/// the rows that the builder holds.
#[verifier::external_body]
fn add_action_row(components: &mut CreateComponents, row: CreateActionRow)
    ensures
        action_rows(*final(components)) == action_rows(*old(components)).push(row_buttons(row)),
{
    components.add_action_row(row);
}

/// The number that serenity gives the primary button style.
pub open spec fn primary_style() -> int {
    1
}

/// Each button of `rows` as a primary button.
pub open spec fn primary(rows: Seq<Seq<(Seq<char>, Seq<char>)>>) -> Seq<Seq<(int, Seq<char>, Seq<char>)>> {
    Seq::new(
        rows.len(),
        |r: int| Seq::new(rows[r].len(), |b: int| (primary_style(), rows[r][b].0, rows[r][b].1)),
    )
}

/// Appends to `components` the rendered keyboard `tree`, row by row, each
/// element as a primary button.
pub fn add_rendered(components: &mut CreateComponents, tree: &Vec<Vec<Button>>)
    ensures
        action_rows(*final(components)) == action_rows(*old(components)) + primary(shown(tree@)),
{
    let ghost before = action_rows(*components);
    let ghost wanted = primary(shown(tree@));
    let mut r: usize = 0;
    while r < tree.len()
        invariant
            r <= tree.len(),
            wanted == primary(shown(tree@)),
            action_rows(*components) == before + wanted.take(r as int),
        decreases tree.len() - r,
    {
        let mut row = new_row();
        let mut b: usize = 0;
        while b < tree[r].len()
            invariant
                r < tree.len(),
                b <= tree[r as int].len(),
                wanted == primary(shown(tree@)),
                takes_buttons(row),
                row_buttons(row) == wanted[r as int].take(b as int),
            decreases tree[r as int].len() - b,
        {
            let mut button = new_button();
            set_primary_style(&mut button);
            set_label(&mut button, tree[r][b].label.as_str());
            set_custom_id(&mut button, tree[r][b].custom_id.as_str());
            add_button(&mut row, button);
            proof {
                assert(wanted[r as int].take(b + 1) =~= wanted[r as int].take(b as int).push(
                    wanted[r as int][b as int],
                ));
            }
            b += 1;
        }
        proof {
            assert(wanted[r as int].take(b as int) =~= wanted[r as int]);
            assert(before + wanted.take(r + 1) =~= (before + wanted.take(r as int)).push(
                wanted[r as int],
            ));
        }
        add_action_row(components, row);
        r += 1;
    }
    proof {
        assert(wanted.take(r as int) =~= wanted);
    }
}

/// Appends to `c` the keyboard that `keyboard` describes: one action row for
/// each of its rows, each a primary button labeled with its text and tagged
/// with the identifier of its position.
pub fn create_components(c: &mut CreateComponents, keyboard: &str)
    ensures
        action_rows(*final(c)) == action_rows(*old(c)) + primary(tagged(keyboard_rows(keyboard@))),
{
    let tree = Keyboard::parse(keyboard).render();
    add_rendered(c, &tree);
    proof {
        lemma_rendered_is_tagged(tree@, keyboard_rows(keyboard@));
    }
}

/// The components of the keyboard that `keyboard` describes, and no others.
pub fn components_for(keyboard: &str) -> (components: CreateComponents)
    ensures
        action_rows(components) == primary(tagged(keyboard_rows(keyboard@))),
{
    let mut components = new_components();
    create_components(&mut components, keyboard);
    proof {
        assert(Seq::<Seq<(int, Seq<char>, Seq<char>)>>::empty() + primary(
            tagged(keyboard_rows(keyboard@)),
        ) =~= primary(tagged(keyboard_rows(keyboard@))));
    }
    components
}

} // verus!
