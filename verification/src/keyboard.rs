//! The keyboard codec: a flat text is split into rows of labeled buttons,
//! rendered with one positional identifier per button, and an identifier is
//! decoded back to the label it stands for.
use crate::error::PromptError;
use crate::ident::{button_id, lemma_button_id_injective, make_button_id};
use crate::share::{BUTTON_SEP, ROW_SEP};
use vstd::prelude::*;

verus! {

/// The fields of `s` between occurrences of `sep`, in order. A text without a
/// separator is one field; a separator at either end bounds an empty field.
pub open spec fn split(s: Seq<char>, sep: char) -> Seq<Seq<char>>
    decreases s.len(),
{
    if s.len() == 0 {
        seq![Seq::<char>::empty()]
    } else {
        let before = split(s.drop_last(), sep);
        if s.last() == sep {
            before.push(Seq::<char>::empty())
        } else {
            before.update(before.len() - 1, before.last().push(s.last()))
        }
    }
}

/// The fields written one after another with `sep` between neighbours.
pub open spec fn join(fields: Seq<Seq<char>>, sep: char) -> Seq<char>
    decreases fields.len(),
{
    if fields.len() == 0 {
        Seq::<char>::empty()
    } else if fields.len() == 1 {
        fields[0]
    } else {
        join(fields.drop_last(), sep) + seq![sep] + fields.last()
    }
}

/// Splitting always yields at least one field, and no field holds the separator.
pub proof fn lemma_split_fields(s: Seq<char>, sep: char)
    ensures
        split(s, sep).len() >= 1,
        forall|i: int, j: int|
            0 <= i < split(s, sep).len() && 0 <= j < split(s, sep)[i].len() ==> split(
                s,
                sep,
            )[i][j] != sep,
    decreases s.len(),
{
    if s.len() > 0 {
        lemma_split_fields(s.drop_last(), sep);
    }
}

/// Every character of a field is a character of the text that was split.
pub proof fn lemma_split_keeps_chars(s: Seq<char>, sep: char)
    ensures
        forall|i: int, j: int|
            0 <= i < split(s, sep).len() && 0 <= j < split(s, sep)[i].len() ==> s.contains(
                #[trigger] split(s, sep)[i][j],
            ),
    decreases s.len(),
{
    if s.len() > 0 {
        let before = split(s.drop_last(), sep);
        lemma_split_fields(s.drop_last(), sep);
        lemma_split_keeps_chars(s.drop_last(), sep);
        assert forall|i: int, j: int|
            0 <= i < split(s, sep).len() && 0 <= j < split(s, sep)[i].len() implies s.contains(
            #[trigger] split(s, sep)[i][j],
        ) by {
            let c = split(s, sep)[i][j];
            if s.last() != sep && i == before.len() - 1 && j == before.last().len() {
                assert(s[s.len() - 1] == c);
            } else {
                assert(before[i][j] == c);
                assert(s.drop_last().contains(c));
                let at = choose|at: int| 0 <= at < s.drop_last().len() && s.drop_last()[at] == c;
                assert(s[at] == c);
            }
        }
    }
}

/// Joining the fields of a text gives the text back: splitting loses nothing.
pub proof fn lemma_join_split(s: Seq<char>, sep: char)
    ensures
        join(split(s, sep), sep) == s,
    decreases s.len(),
{
    if s.len() == 0 {
        assert(join(split(s, sep), sep) =~= s);
    } else {
        let before = split(s.drop_last(), sep);
        let fields = split(s, sep);
        lemma_split_fields(s.drop_last(), sep);
        lemma_join_split(s.drop_last(), sep);
        if s.last() == sep {
            assert(fields.drop_last() =~= before);
            assert(join(fields, sep) =~= s);
        } else if before.len() == 1 {
            assert(join(fields, sep) =~= s);
        } else {
            assert(fields.drop_last() =~= before.drop_last());
            assert(fields.last() == before.last().push(s.last()));
            assert(join(before, sep) == join(before.drop_last(), sep) + seq![sep] + before.last());
            assert(s =~= s.drop_last().push(s.last()));
            assert(join(fields, sep) =~= join(before, sep).push(s.last()));
        }
    }
}

/// A text without the separator is one field: itself.
pub proof fn lemma_split_one_field(field: Seq<char>, sep: char)
    requires
        !field.contains(sep),
    ensures
        split(field, sep) == seq![field],
    decreases field.len(),
{
    if field.len() == 0 {
        assert(field =~= Seq::<char>::empty());
    } else {
        assert(field[field.len() - 1] != sep);
        assert forall|i: int| 0 <= i < field.drop_last().len() implies field.drop_last()[i]
            != sep by {
            assert(field[i] != sep);
        }
        lemma_split_one_field(field.drop_last(), sep);
        assert(field.drop_last().push(field.last()) =~= field);
        assert(split(field, sep) =~= seq![field]);
    }
}

/// A separator and a field without one, written after a text, add that field
/// to the fields of the text.
pub proof fn lemma_split_appended_field(s: Seq<char>, field: Seq<char>, sep: char)
    requires
        !field.contains(sep),
    ensures
        split(s + seq![sep] + field, sep) == split(s, sep).push(field),
    decreases field.len(),
{
    let whole = s + seq![sep] + field;
    if field.len() == 0 {
        assert(whole.drop_last() =~= s);
        assert(field =~= Seq::<char>::empty());
    } else {
        assert(field[field.len() - 1] != sep);
        assert forall|i: int| 0 <= i < field.drop_last().len() implies field.drop_last()[i]
            != sep by {
            assert(field[i] != sep);
        }
        lemma_split_appended_field(s, field.drop_last(), sep);
        assert(whole.drop_last() =~= s + seq![sep] + field.drop_last());
        assert(whole.last() == field.last());
        assert(field.drop_last().push(field.last()) =~= field);
        assert(split(whole, sep) =~= split(s, sep).push(field));
    }
}

/// Splitting what was joined gives the fields back, where there is a field
/// and none holds the separator: the fields of a text are the only such
/// fields that join to it.
pub proof fn lemma_split_join(fields: Seq<Seq<char>>, sep: char)
    requires
        fields.len() >= 1,
        forall|i: int| 0 <= i < fields.len() ==> !(#[trigger] fields[i]).contains(sep),
    ensures
        split(join(fields, sep), sep) == fields,
    decreases fields.len(),
{
    if fields.len() == 1 {
        lemma_split_one_field(fields[0], sep);
        assert(seq![fields[0]] =~= fields);
    } else {
        lemma_split_join(fields.drop_last(), sep);
        lemma_split_appended_field(join(fields.drop_last(), sep), fields.last(), sep);
        assert(fields.drop_last().push(fields.last()) =~= fields);
    }
}

/// The rows of labels that a keyboard text describes.
pub open spec fn keyboard_rows(text: Seq<char>) -> Seq<Seq<Seq<char>>> {
    let rows = split(text, ROW_SEP);
    Seq::new(rows.len(), |r: int| split(rows[r], BUTTON_SEP))
}

/// A keyboard text always describes at least one row, no row is empty, and no
/// label holds either separator.
pub proof fn lemma_keyboard_rows_shape(text: Seq<char>)
    ensures
        keyboard_rows(text).len() >= 1,
        forall|r: int|
            0 <= r < keyboard_rows(text).len() ==> (#[trigger] keyboard_rows(text)[r]).len() >= 1,
        forall|r: int, b: int, k: int|
            0 <= r < keyboard_rows(text).len() && 0 <= b < keyboard_rows(text)[r].len() && 0 <= k
                < keyboard_rows(text)[r][b].len() ==> {
                &&& (#[trigger] keyboard_rows(text)[r][b][k]) != ROW_SEP
                &&& keyboard_rows(text)[r][b][k] != BUTTON_SEP
            },
{
    let rows = split(text, ROW_SEP);
    lemma_split_fields(text, ROW_SEP);
    assert forall|r: int| 0 <= r < rows.len() implies (#[trigger] keyboard_rows(text)[r]).len()
        >= 1 by {
        lemma_split_fields(rows[r], BUTTON_SEP);
    }
    assert forall|r: int, b: int, k: int|
        0 <= r < keyboard_rows(text).len() && 0 <= b < keyboard_rows(text)[r].len() && 0 <= k
            < keyboard_rows(text)[r][b].len() implies {
        &&& (#[trigger] keyboard_rows(text)[r][b][k]) != ROW_SEP
        &&& keyboard_rows(text)[r][b][k] != BUTTON_SEP
    } by {
        lemma_split_fields(rows[r], BUTTON_SEP);
        lemma_split_keeps_chars(rows[r], BUTTON_SEP);
        let c = keyboard_rows(text)[r][b][k];
        assert(rows[r].contains(c));
        let at = choose|at: int| 0 <= at < rows[r].len() && rows[r][at] == c;
        assert(rows[r][at] != ROW_SEP);
    }
}

/// The texts of a sequence of strings.
pub open spec fn labels(fields: Seq<String>) -> Seq<Seq<char>> {
    Seq::new(fields.len(), |i: int| fields[i]@)
}

/// Whether `rows` has a button at position `button` of row `row`.
pub open spec fn has_button(rows: Seq<Seq<Seq<char>>>, row: nat, button: nat) -> bool {
    row < rows.len() && button < rows[row as int].len()
}

/// The label that `id` stands for in `rows`: that of the button whose
/// position gives `id`, if there is one.
pub open spec fn decoded(rows: Seq<Seq<Seq<char>>>, id: Seq<char>) -> Option<Seq<char>> {
    if exists|r: nat, b: nat| has_button(rows, r, b) && #[trigger] button_id(r, b) == id {
        let (r, b) = choose|r: nat, b: nat|
            has_button(rows, r, b) && #[trigger] button_id(r, b) == id;
        Some(rows[r as int][b as int])
    } else {
        None
    }
}

/// The identifier of a button's position decodes to that button's label.
pub proof fn lemma_decode_button_id(rows: Seq<Seq<Seq<char>>>, row: nat, button: nat)
    requires
        has_button(rows, row, button),
    ensures
        decoded(rows, button_id(row, button)) == Some(rows[row as int][button as int]),
{
    let id = button_id(row, button);
    let (r, b) = choose|r: nat, b: nat| has_button(rows, r, b) && #[trigger] button_id(r, b) == id;
    lemma_button_id_injective(r, b, row, button);
}

/// Splits `text` at every occurrence of `sep`.
pub fn split_fields(text: &str, sep: char) -> (fields: Vec<String>)
    ensures
        labels(fields@) == split(text@, sep),
{
    let n = text.unicode_len();
    let mut fields: Vec<String> = Vec::new();
    let mut start: usize = 0;
    let mut i: usize = 0;
    proof {
        assert(text@.subrange(0, 0) =~= Seq::<char>::empty());
        assert(split(text@.subrange(0, 0), sep) =~= labels(fields@).push(text@.subrange(0, 0)));
    }
    while i < n
        invariant
            start <= i <= n,
            n == text@.len(),
            split(text@.subrange(0, i as int), sep) == labels(fields@).push(
                text@.subrange(start as int, i as int),
            ),
        decreases n - i,
    {
        let c = text.get_char(i);
        let ghost seen = text@.subrange(0, i as int);
        let ghost done = labels(fields@);
        proof {
            assert(text@.subrange(0, i + 1).drop_last() =~= seen);
            assert(text@.subrange(0, i + 1).last() == c);
        }
        if c == sep {
            let ghost field = text@.subrange(start as int, i as int);
            fields.push(text.substring_char(start, i).to_owned());
            start = i + 1;
            proof {
                assert(labels(fields@) =~= done.push(field));
                assert(text@.subrange(start as int, i + 1) =~= Seq::<char>::empty());
            }
        } else {
            proof {
                assert(text@.subrange(start as int, i + 1) =~= text@.subrange(
                    start as int,
                    i as int,
                ).push(c));
                assert(split(text@.subrange(0, i + 1), sep) =~= done.push(
                    text@.subrange(start as int, i + 1),
                ));
            }
        }
        i += 1;
    }
    fields.push(text.substring_char(start, n).to_owned());
    proof {
        assert(text@.subrange(0, n as int) =~= text@);
        assert(labels(fields@) =~= split(text@, sep));
    }
    fields
}

/// One clickable element of a rendered keyboard.
#[derive(Debug, PartialEq, Eq)]
pub struct Button {
    /// The text shown on the button.
    pub label: String,
    /// The identifier that an interaction with the button reports.
    pub custom_id: String,
}

/// Whether `tree` shows `rows`: the same shape, each element labeled with its
/// button's text and tagged with the identifier of its position.
pub open spec fn renders(tree: Seq<Vec<Button>>, rows: Seq<Seq<Seq<char>>>) -> bool {
    &&& tree.len() == rows.len()
    &&& forall|r: int| 0 <= r < tree.len() ==> (#[trigger] tree[r]).len() == rows[r].len()
    &&& forall|r: int, b: int|
        0 <= r < tree.len() && 0 <= b < tree[r].len() ==> {
            &&& (#[trigger] tree[r][b]).label@ == rows[r][b]
            &&& tree[r][b].custom_id@ == button_id(r as nat, b as nat)
        }
}

/// Each label of `rows` paired with the identifier of its position.
pub open spec fn tagged(rows: Seq<Seq<Seq<char>>>) -> Seq<Seq<(Seq<char>, Seq<char>)>> {
    Seq::new(
        rows.len(),
        |r: int| Seq::new(rows[r].len(), |b: int| (rows[r][b], button_id(r as nat, b as nat))),
    )
}

/// The label and the identifier of each element of a rendered keyboard.
pub open spec fn shown(tree: Seq<Vec<Button>>) -> Seq<Seq<(Seq<char>, Seq<char>)>> {
    Seq::new(
        tree.len(),
        |r: int| Seq::new(tree[r].len() as nat, |b: int| (tree[r][b].label@, tree[r][b].custom_id@)),
    )
}

/// A rendered keyboard shows each label with the identifier of its position.
pub proof fn lemma_rendered_is_tagged(tree: Seq<Vec<Button>>, rows: Seq<Seq<Seq<char>>>)
    requires
        renders(tree, rows),
    ensures
        shown(tree) == tagged(rows),
{
    assert forall|r: int| 0 <= r < tree.len() implies #[trigger] shown(tree)[r] == tagged(
        rows,
    )[r] by {
        assert(tree[r].len() == rows[r].len());
        assert forall|b: int| 0 <= b < tree[r].len() implies #[trigger] shown(tree)[r][b]
            == tagged(rows)[r][b] by {
            assert(tree[r][b].label@ == rows[r][b]);
        }
        assert(shown(tree)[r] =~= tagged(rows)[r]);
    }
    assert(shown(tree) =~= tagged(rows));
}

/// Rows of labeled buttons. There is at least one row and no row is empty.
#[derive(Debug)]
pub struct Keyboard {
    rows: Vec<Vec<String>>,
}

impl View for Keyboard {
    type V = Seq<Seq<Seq<char>>>;

    closed spec fn view(&self) -> Seq<Seq<Seq<char>>> {
        Seq::new(self.rows.len() as nat, |r: int| labels(self.rows[r]@))
    }
}

impl Keyboard {
    #[verifier::type_invariant]
    spec fn shaped(&self) -> bool {
        &&& self.rows.len() >= 1
        &&& forall|r: int| 0 <= r < self.rows.len() ==> (#[trigger] self.rows[r]).len() >= 1
    }

    /// Reads a keyboard text: rows between `:`, buttons between `,`.
    pub fn parse(text: &str) -> (keyboard: Keyboard)
        ensures
            keyboard@ == keyboard_rows(text@),
    {
        let row_texts = split_fields(text, ROW_SEP);
        let mut rows: Vec<Vec<String>> = Vec::new();
        let mut r: usize = 0;
        while r < row_texts.len()
            invariant
                r <= row_texts.len(),
                rows.len() == r,
                labels(row_texts@) == split(text@, ROW_SEP),
                forall|k: int|
                    0 <= k < r ==> labels((#[trigger] rows[k])@) == split(
                        split(text@, ROW_SEP)[k],
                        BUTTON_SEP,
                    ),
            decreases row_texts.len() - r,
        {
            let row = split_fields(row_texts[r].as_str(), BUTTON_SEP);
            proof {
                assert(labels(row_texts@)[r as int] == row_texts[r as int]@);
            }
            rows.push(row);
            r += 1;
        }
        proof {
            lemma_split_fields(text@, ROW_SEP);
            assert forall|k: int| 0 <= k < rows.len() implies (#[trigger] rows[k]).len() >= 1 by {
                lemma_split_fields(split(text@, ROW_SEP)[k], BUTTON_SEP);
                assert(labels(rows[k]@).len() == rows[k].len());
            }
        }
        let keyboard = Keyboard { rows };
        proof {
            assert(keyboard@ =~= keyboard_rows(text@));
        }
        keyboard
    }

    /// The number of rows.
    pub fn row_count(&self) -> (n: usize)
        ensures
            n == self@.len(),
            n >= 1,
    {
        proof {
            use_type_invariant(self);
        }
        self.rows.len()
    }

    /// The number of buttons in row `row`, if there is such a row.
    pub fn row_len(&self, row: usize) -> (n: Option<usize>)
        ensures
            row < self@.len() ==> n == Some(self@[row as int].len() as usize) && self@[row as int].len() >= 1,
            row >= self@.len() ==> n is None,
    {
        proof {
            use_type_invariant(self);
        }
        if row < self.rows.len() {
            Some(self.rows[row].len())
        } else {
            None
        }
    }

    /// The label of the button at position `button` of row `row`, if there is one.
    pub fn label(&self, row: usize, button: usize) -> (label: Option<&String>)
        ensures
            has_button(self@, row as nat, button as nat) ==> label is Some && label->0@
                == self@[row as int][button as int],
            !has_button(self@, row as nat, button as nat) ==> label is None,
    {
        if row < self.rows.len() {
            if button < self.rows[row].len() {
                return Some(&self.rows[row][button]);
            }
        }
        None
    }

    /// The label of the first button of the first row.
    pub fn first_label(&self) -> (label: &String)
        ensures
            self@.len() >= 1,
            self@[0].len() >= 1,
            label@ == self@[0][0],
    {
        proof {
            use_type_invariant(self);
        }
        &self.rows[0][0]
    }

    /// Lays the keyboard out as rows of elements, each carrying its label and
    /// the identifier of its position.
    pub fn render(&self) -> (tree: Vec<Vec<Button>>)
        ensures
            renders(tree@, self@),
    {
        let mut tree: Vec<Vec<Button>> = Vec::new();
        let mut r: usize = 0;
        while r < self.rows.len()
            invariant
                r <= self.rows.len(),
                tree.len() == r,
                renders(tree@, self@.take(r as int)),
            decreases self.rows.len() - r,
        {
            let mut row: Vec<Button> = Vec::new();
            let mut b: usize = 0;
            while b < self.rows[r].len()
                invariant
                    r < self.rows.len(),
                    b <= self.rows[r as int].len(),
                    row.len() == b,
                    forall|k: int|
                        0 <= k < b ==> {
                            &&& (#[trigger] row[k]).label@ == self.rows[r as int][k]@
                            &&& row[k].custom_id@ == button_id(r as nat, k as nat)
                        },
                decreases self.rows[r as int].len() - b,
            {
                row.push(Button { label: self.rows[r][b].clone(), custom_id: make_button_id(r, b) });
                b += 1;
            }
            tree.push(row);
            r += 1;
        }
        proof {
            assert(self@.take(r as int) =~= self@);
        }
        tree
    }

    /// Finds the label of the button that `id` names.
    ///
    /// An identifier that `render` gave to a button of this keyboard always
    /// decodes to that button's label; any other text is a `Decode` error
    /// that carries the text.
    pub fn decode(&self, id: &str) -> (label: Result<String, PromptError>)
        ensures
            match label {
                Ok(text) => decoded(self@, id@) == Some(text@),
                Err(err) => decoded(self@, id@) is None && err is Decode && err->Decode_0@ == id@,
            },
    {
        let wanted = id.to_owned();
        let mut r: usize = 0;
        while r < self.rows.len()
            invariant
                r <= self.rows.len(),
                wanted@ == id@,
                forall|i: nat, j: nat|
                    i < r && has_button(self@, i, j) ==> #[trigger] button_id(i, j) != id@,
            decreases self.rows.len() - r,
        {
            let mut b: usize = 0;
            while b < self.rows[r].len()
                invariant
                    r < self.rows.len(),
                    b <= self.rows[r as int].len(),
                    wanted@ == id@,
                    forall|i: nat, j: nat|
                        i < r && has_button(self@, i, j) ==> #[trigger] button_id(i, j) != id@,
                    forall|j: nat| j < b ==> #[trigger] button_id(r as nat, j) != id@,
                decreases self.rows[r as int].len() - b,
            {
                if make_button_id(r, b) == wanted {
                    let found = self.rows[r][b].clone();
                    proof {
                        assert(has_button(self@, r as nat, b as nat));
                        assert(button_id(r as nat, b as nat) == id@);
                        lemma_decode_button_id(self@, r as nat, b as nat);
                    }
                    return Ok(found);
                }
                b += 1;
            }
            r += 1;
        }
        Err(PromptError::Decode(wanted))
    }
}

/// Every identifier of a rendered keyboard decodes, against the rows it was
/// rendered from, to the label that it was rendered with.
pub proof fn lemma_rendered_ids_decode(
    tree: Seq<Vec<Button>>,
    rows: Seq<Seq<Seq<char>>>,
    r: int,
    b: int,
)
    requires
        renders(tree, rows),
        0 <= r < tree.len() && 0 <= b < tree[r].len(),
    ensures
        decoded(rows, tree[r][b].custom_id@) == Some(tree[r][b].label@),
{
    lemma_decode_button_id(rows, r as nat, b as nat);
}

/// Two buttons of one keyboard that `render` tagged alike are the same button.
pub proof fn lemma_rendered_ids_distinct(
    tree: Seq<Vec<Button>>,
    rows: Seq<Seq<Seq<char>>>,
    r1: int,
    b1: int,
    r2: int,
    b2: int,
)
    requires
        renders(tree, rows),
        0 <= r1 < tree.len() && 0 <= b1 < tree[r1].len(),
        0 <= r2 < tree.len() && 0 <= b2 < tree[r2].len(),
        tree[r1][b1].custom_id@ == tree[r2][b2].custom_id@,
    ensures
        r1 == r2 && b1 == b2,
{
    lemma_button_id_injective(r1 as nat, b1 as nat, r2 as nat, b2 as nat);
}

/// Finds, in the keyboard that `keyboard` describes, the label of the button
/// that `id` names.
pub fn component_id_to_button(id: &str, keyboard: &str) -> (label: Result<String, PromptError>)
    ensures
        match label {
            Ok(text) => decoded(keyboard_rows(keyboard@), id@) == Some(text@),
            Err(err) => decoded(keyboard_rows(keyboard@), id@) is None && err is Decode
                && err->Decode_0@ == id@,
        },
{
    Keyboard::parse(keyboard).decode(id)
}

/// Whether `answer` is the label of the first button of the first row of the
/// keyboard that `keyboard` describes.
pub fn is_first_button(answer: &str, keyboard: &str) -> (first: bool)
    ensures
        first == (answer@ == keyboard_rows(keyboard@)[0][0]),
{
    let parsed = Keyboard::parse(keyboard);
    let wanted = answer.to_owned();
    *parsed.first_label() == wanted
}

} // verus!
