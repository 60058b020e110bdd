//! Positional button identifiers: `id_<row>_<button>`, both indices zero-based
//! and written in decimal.
use vstd::prelude::*;

verus! {

/// The character that stands for one decimal digit.
pub open spec fn digit(d: nat) -> char {
    if d == 0 {
        '0'
    } else if d == 1 {
        '1'
    } else if d == 2 {
        '2'
    } else if d == 3 {
        '3'
    } else if d == 4 {
        '4'
    } else if d == 5 {
        '5'
    } else if d == 6 {
        '6'
    } else if d == 7 {
        '7'
    } else if d == 8 {
        '8'
    } else {
        '9'
    }
}

/// The decimal numeral of `n`, most significant digit first, without leading zeros.
pub open spec fn decimal(n: nat) -> Seq<char>
    decreases n,
{
    if n < 10 {
        seq![digit(n)]
    } else {
        decimal(n / 10).push(digit(n % 10))
    }
}

/// The identifier of the button at position `button` of row `row`.
pub open spec fn button_id(row: nat, button: nat) -> Seq<char> {
    seq!['i', 'd', '_'] + decimal(row) + seq!['_'] + decimal(button)
}

/// A numeral is never empty, has two digits or more from ten on, and holds no underscore.
pub proof fn lemma_decimal_shape(n: nat)
    ensures
        decimal(n).len() >= 1,
        n >= 10 ==> decimal(n).len() >= 2,
        forall|i: int| 0 <= i < decimal(n).len() ==> #[trigger] decimal(n)[i] != '_',
    decreases n,
{
    if n >= 10 {
        lemma_decimal_shape(n / 10);
    }
}

/// Two numbers with the same numeral are equal.
pub proof fn lemma_decimal_injective(a: nat, b: nat)
    requires
        decimal(a) == decimal(b),
    ensures
        a == b,
    decreases a,
{
    lemma_decimal_shape(a);
    lemma_decimal_shape(b);
    if a < 10 {
        assert(decimal(a).len() == 1);
        assert(b < 10);
        assert(decimal(a)[0] == digit(a));
        assert(decimal(b)[0] == digit(b));
    } else {
        lemma_decimal_shape(a / 10);
        assert(b >= 10);
        assert(decimal(a).drop_last() =~= decimal(a / 10));
        assert(decimal(b).drop_last() =~= decimal(b / 10));
        assert(decimal(a).last() == digit(a % 10));
        assert(decimal(b).last() == digit(b % 10));
        lemma_decimal_injective(a / 10, b / 10);
    }
}

/// Two positions with the same identifier are the same position: within one
/// keyboard no two buttons share an identifier.
pub proof fn lemma_button_id_injective(row1: nat, button1: nat, row2: nat, button2: nat)
    requires
        button_id(row1, button1) == button_id(row2, button2),
    ensures
        row1 == row2,
        button1 == button2,
{
    let id1 = button_id(row1, button1);
    let id2 = button_id(row2, button2);
    let n1 = decimal(row1).len() as int;
    let n2 = decimal(row2).len() as int;
    lemma_decimal_shape(row1);
    lemma_decimal_shape(row2);
    assert(id1[3 + n1] == '_');
    assert(id2[3 + n2] == '_');
    if n1 < n2 {
        assert(id2[3 + n1] == decimal(row2)[n1]);
    }
    if n2 < n1 {
        assert(id1[3 + n2] == decimal(row1)[n2]);
    }
    assert(decimal(row1) =~= id1.subrange(3, 3 + n1));
    assert(decimal(row2) =~= id2.subrange(3, 3 + n2));
    assert(decimal(button1) =~= id1.subrange(4 + n1, id1.len() as int));
    assert(decimal(button2) =~= id2.subrange(4 + n2, id2.len() as int));
    lemma_decimal_injective(row1, row2);
    lemma_decimal_injective(button1, button2);
}

/// The one-character text of a decimal digit.
fn digit_str(d: usize) -> (s: &'static str)
    requires
        d < 10,
    ensures
        s@ =~= seq![digit(d as nat)],
{
    proof {
        reveal_strlit("0");
        reveal_strlit("1");
        reveal_strlit("2");
        reveal_strlit("3");
        reveal_strlit("4");
        reveal_strlit("5");
        reveal_strlit("6");
        reveal_strlit("7");
        reveal_strlit("8");
        reveal_strlit("9");
    }
    if d == 0 {
        "0"
    } else if d == 1 {
        "1"
    } else if d == 2 {
        "2"
    } else if d == 3 {
        "3"
    } else if d == 4 {
        "4"
    } else if d == 5 {
        "5"
    } else if d == 6 {
        "6"
    } else if d == 7 {
        "7"
    } else if d == 8 {
        "8"
    } else {
        "9"
    }
}

/// Writes `n` in decimal.
pub fn decimal_string(n: usize) -> (s: String)
    ensures
        s@ == decimal(n as nat),
    decreases n,
{
    if n < 10 {
        String::from_str(digit_str(n))
    } else {
        let mut s = decimal_string(n / 10);
        s.append(digit_str(n % 10));
        proof {
            assert(s@ =~= decimal((n / 10) as nat).push(digit((n % 10) as nat)));
        }
        s
    }
}

/// Builds the identifier of the button at position `button_idx` of row `row_idx`.
pub fn make_button_id(row_idx: usize, button_idx: usize) -> (id: String)
    ensures
        id@ == button_id(row_idx as nat, button_idx as nat),
{
    proof {
        reveal_strlit("id_");
        reveal_strlit("_");
    }
    let mut id = String::from_str("id_");
    let row = decimal_string(row_idx);
    let button = decimal_string(button_idx);
    id.append(row.as_str());
    id.append("_");
    id.append(button.as_str());
    proof {
        assert(id@ =~= button_id(row_idx as nat, button_idx as nat));
    }
    id
}

} // verus!
