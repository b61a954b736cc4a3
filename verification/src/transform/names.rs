//! Names of synthesized temporaries, and the decimal text of integers.

use vstd::prelude::*;
use vstd::string::StringExecFns;
use crate::linecol::{
    clamp_offset, col_of, lemma_line_start_bounds, lemma_linecol_injective, line_of,
};

verus! {

pub open spec fn digit_char(d: int) -> char {
    if d == 0 {
        '0'
    } else if d == 1 {
        '1'
    } else if d == 2 {
        '2'
    } else if d == 3 {
        '3'
    } else if d == 4 {
        '4'
    } else if d == 5 {
        '5'
    } else if d == 6 {
        '6'
    } else if d == 7 {
        '7'
    } else if d == 8 {
        '8'
    } else {
        '9'
    }
}

pub open spec fn is_digit(c: char) -> bool {
    '0' <= c <= '9'
}

pub open spec fn is_lower(c: char) -> bool {
    'a' <= c <= 'z'
}

/// The decimal digits of `n`, most significant first, without leading zeros.
pub open spec fn decimal(n: nat) -> Seq<char>
    decreases n,
{
    if n < 10 {
        seq![digit_char(n as int)]
    } else {
        decimal(n / 10).push(digit_char((n % 10) as int))
    }
}

/// The decimal text of an integer, with `-` in front of a negative one.
pub open spec fn int_text(v: int) -> Seq<char> {
    if v < 0 {
        seq!['-'] + decimal((-v) as nat)
    } else {
        decimal(v as nat)
    }
}

/// The name of the temporary of kind `kind` made for byte offset `cursor` of
/// the text `src`: `__tl_`, the kind, `_l`, the line, `c`, the column.
#[verifier::opaque]
pub open spec fn temp_name(src: Seq<u8>, kind: Seq<char>, cursor: usize) -> Seq<char> {
    "__tl_"@ + kind + "_l"@ + decimal(line_of(src, cursor as int) as nat) + "c"@ + decimal(
        col_of(src, cursor as int) as nat,
    )
}

/// `s` reads `__tl_[a-z]+_l[0-9]+c[0-9]+`.
pub open spec fn is_plain_temp_name(s: Seq<char>) -> bool {
    exists|kind: Seq<char>, line: Seq<char>, col: Seq<char>|
        {
            &&& kind.len() > 0
            &&& line.len() > 0
            &&& col.len() > 0
            &&& forall|i: int| 0 <= i < kind.len() ==> is_lower(#[trigger] kind[i])
            &&& forall|i: int| 0 <= i < line.len() ==> is_digit(#[trigger] line[i])
            &&& forall|i: int| 0 <= i < col.len() ==> is_digit(#[trigger] col[i])
            &&& s == #[trigger] ("__tl_"@ + kind + "_l"@ + line + "c"@ + col)
        }
}

/// Decimal text is made of digits and is never empty.
pub proof fn lemma_decimal_digits(n: nat)
    ensures
        decimal(n).len() > 0,
        forall|i: int| 0 <= i < decimal(n).len() ==> is_digit(#[trigger] decimal(n)[i]),
    decreases n,
{
    if n >= 10 {
        lemma_decimal_digits(n / 10);
    }
}

/// A temporary whose kind is a word of lower-case letters has a name of the
/// form `__tl_[a-z]+_l[0-9]+c[0-9]+`.
pub proof fn lemma_temp_name_shape(src: Seq<u8>, kind: Seq<char>, cursor: usize)
    requires
        kind.len() > 0,
        forall|i: int| 0 <= i < kind.len() ==> is_lower(#[trigger] kind[i]),
    ensures
        is_plain_temp_name(temp_name(src, kind, cursor)),
{
    reveal(temp_name);
    let line = decimal(line_of(src, cursor as int) as nat);
    let col = decimal(col_of(src, cursor as int) as nat);
    lemma_decimal_digits(line_of(src, cursor as int) as nat);
    lemma_decimal_digits(col_of(src, cursor as int) as nat);
    assert(temp_name(src, kind, cursor) == "__tl_"@ + kind + "_l"@ + line + "c"@ + col);
}

/// The number that a digit stands for.
pub open spec fn digit_value(c: char) -> nat {
    if c == '1' {
        1
    } else if c == '2' {
        2
    } else if c == '3' {
        3
    } else if c == '4' {
        4
    } else if c == '5' {
        5
    } else if c == '6' {
        6
    } else if c == '7' {
        7
    } else if c == '8' {
        8
    } else if c == '9' {
        9
    } else {
        0
    }
}

/// The number that a text of digits stands for.
pub open spec fn decimal_value(s: Seq<char>) -> nat
    decreases s.len(),
{
    if s.len() == 0 {
        0
    } else {
        decimal_value(s.drop_last()) * 10 + digit_value(s.last())
    }
}

/// Decimal text stands for the number it was made from.
pub proof fn lemma_decimal_value(n: nat)
    ensures
        decimal_value(decimal(n)) == n,
    decreases n,
{
    if n < 10 {
        let s = seq![digit_char(n as int)];
        assert(s.drop_last() =~= Seq::<char>::empty());
        assert(decimal_value(s.drop_last()) == 0);
        assert(s.last() == digit_char(n as int));
    } else {
        lemma_decimal_value(n / 10);
        let s = decimal(n / 10).push(digit_char((n % 10) as int));
        assert(s.drop_last() =~= decimal(n / 10));
        assert(s.last() == digit_char((n % 10) as int));
    }
}

/// Different numbers have different decimal texts.
pub proof fn lemma_decimal_injective(a: nat, b: nat)
    requires
        decimal(a) == decimal(b),
    ensures
        a == b,
{
    lemma_decimal_value(a);
    lemma_decimal_value(b);
}

/// A text that ends with a separator and digits is cut in one way only.
pub proof fn lemma_digit_suffix(
    a1: Seq<char>,
    d1: Seq<char>,
    a2: Seq<char>,
    d2: Seq<char>,
    sep: char,
)
    requires
        a1.push(sep) + d1 == a2.push(sep) + d2,
        !is_digit(sep),
        forall|i: int| 0 <= i < d1.len() ==> is_digit(#[trigger] d1[i]),
        forall|i: int| 0 <= i < d2.len() ==> is_digit(#[trigger] d2[i]),
    ensures
        a1 == a2,
        d1 == d2,
{
    let n1 = a1.push(sep) + d1;
    let n2 = a2.push(sep) + d2;
    assert(n1.len() == a1.len() + 1 + d1.len());
    assert(n2.len() == a2.len() + 1 + d2.len());
    if a1.len() < a2.len() {
        // the separator of the second cut falls among the digits of the first
        let p = a2.len() as int;
        assert(n2[p] == sep);
        assert(n1[p] == d1[p - a1.len() - 1]);
        assert(false);
    }
    if a2.len() < a1.len() {
        let p = a1.len() as int;
        assert(n1[p] == sep);
        assert(n2[p] == d2[p - a2.len() - 1]);
        assert(false);
    }
    assert(a1 =~= a2) by {
        assert forall|i: int| 0 <= i < a1.len() implies a1[i] == a2[i] by {
            assert(n1[i] == a1[i]);
            assert(n2[i] == a2[i]);
        }
    }
    assert(d1 =~= d2) by {
        assert forall|i: int| 0 <= i < d1.len() implies d1[i] == d2[i] by {
            assert(n1[a1.len() + 1 + i] == d1[i]);
            assert(n2[a2.len() + 1 + i] == d2[i]);
        }
    }
}

/// Temporaries have the same name only if they are of the same kind and made
/// for the same line and column.
pub proof fn lemma_temp_name_injective(
    src: Seq<u8>,
    kind1: Seq<char>,
    cursor1: usize,
    kind2: Seq<char>,
    cursor2: usize,
)
    requires
        temp_name(src, kind1, cursor1) == temp_name(src, kind2, cursor2),
    ensures
        kind1 == kind2,
        line_of(src, cursor1 as int) == line_of(src, cursor2 as int),
        col_of(src, cursor1 as int) == col_of(src, cursor2 as int),
{
    reveal(temp_name);
    reveal_strlit("__tl_");
    reveal_strlit("_l");
    reveal_strlit("c");
    let l1 = line_of(src, cursor1 as int) as nat;
    let l2 = line_of(src, cursor2 as int) as nat;
    let c1 = col_of(src, cursor1 as int) as nat;
    let c2 = col_of(src, cursor2 as int) as nat;
    lemma_line_start_bounds(
        src,
        clamp_offset(src, cursor1 as int),
    );
    lemma_line_start_bounds(
        src,
        clamp_offset(src, cursor2 as int),
    );
    lemma_decimal_digits(l1);
    lemma_decimal_digits(l2);
    lemma_decimal_digits(c1);
    lemma_decimal_digits(c2);
    let p = "__tl_"@;
    let h1 = (p + kind1).push('_');
    let h2 = (p + kind2).push('_');
    let m1 = h1.push('l') + decimal(l1);
    let m2 = h2.push('l') + decimal(l2);
    assert(temp_name(src, kind1, cursor1) =~= m1.push('c') + decimal(c1));
    assert(temp_name(src, kind2, cursor2) =~= m2.push('c') + decimal(c2));
    lemma_digit_suffix(m1, decimal(c1), m2, decimal(c2), 'c');
    lemma_digit_suffix(h1, decimal(l1), h2, decimal(l2), 'l');
    lemma_decimal_injective(c1, c2);
    lemma_decimal_injective(l1, l2);
    assert(h1.drop_last() =~= p + kind1);
    assert(h2.drop_last() =~= p + kind2);
    assert(kind1 =~= (p + kind1).subrange(p.len() as int, (p + kind1).len() as int));
    assert(kind2 =~= (p + kind2).subrange(p.len() as int, (p + kind2).len() as int));
}

/// Temporaries of different kinds, or made for different offsets of the
/// text, have different names.
pub proof fn lemma_temp_names_distinct(
    src: Seq<u8>,
    kind1: Seq<char>,
    cursor1: usize,
    kind2: Seq<char>,
    cursor2: usize,
)
    requires
        cursor1 <= src.len(),
        cursor2 <= src.len(),
        kind1 != kind2 || cursor1 != cursor2,
    ensures
        temp_name(src, kind1, cursor1) != temp_name(src, kind2, cursor2),
{
    if temp_name(src, kind1, cursor1) == temp_name(src, kind2, cursor2) {
        lemma_temp_name_injective(src, kind1, cursor1, kind2, cursor2);
        lemma_linecol_injective(src, cursor1 as int, cursor2 as int);
    }
}

/// Whether `c` may stand in the kind of a temporary.
pub open spec fn is_kind_char(c: char) -> bool {
    is_lower(c) || c == '_'
}

/// `s` reads `__tl_[a-z_]+_l[0-9]+c[0-9]+`.
pub open spec fn is_temp_name(s: Seq<char>) -> bool {
    exists|kind: Seq<char>, line: Seq<char>, col: Seq<char>|
        {
            &&& kind.len() > 0
            &&& line.len() > 0
            &&& col.len() > 0
            &&& forall|i: int| 0 <= i < kind.len() ==> is_kind_char(#[trigger] kind[i])
            &&& forall|i: int| 0 <= i < line.len() ==> is_digit(#[trigger] line[i])
            &&& forall|i: int| 0 <= i < col.len() ==> is_digit(#[trigger] col[i])
            &&& s == #[trigger] ("__tl_"@ + kind + "_l"@ + line + "c"@ + col)
        }
}

/// A temporary whose kind is made of lower-case letters and underscores has
/// a name of the form `__tl_[a-z_]+_l[0-9]+c[0-9]+`.
pub proof fn lemma_temp_name_form(src: Seq<u8>, kind: Seq<char>, cursor: usize)
    requires
        kind.len() > 0,
        forall|i: int| 0 <= i < kind.len() ==> is_kind_char(#[trigger] kind[i]),
    ensures
        is_temp_name(temp_name(src, kind, cursor)),
{
    reveal(temp_name);
    let line = decimal(line_of(src, cursor as int) as nat);
    let col = decimal(col_of(src, cursor as int) as nat);
    lemma_decimal_digits(line_of(src, cursor as int) as nat);
    lemma_decimal_digits(col_of(src, cursor as int) as nat);
    assert(temp_name(src, kind, cursor) == "__tl_"@ + kind + "_l"@ + line + "c"@ + col);
}

/// The kinds of the temporaries that lowering makes.
pub open spec fn is_lowering_kind(kind: Seq<char>) -> bool {
    ||| kind == "ph"@
    ||| kind == "tmp"@
    ||| kind == "chk"@
    ||| kind == "fnexp"@
    ||| kind == "clsexp"@
    ||| kind == "ifexp"@
    ||| kind == "matchexp"@
    ||| kind == "des_curs"@
    ||| kind == "des_list"@
    ||| kind == "des_len"@
    ||| kind == "des_dict"@
}

/// Every temporary that lowering makes has a name of the form
/// `__tl_[a-z_]+_l[0-9]+c[0-9]+`; but for those of destructuring, whose
/// kinds hold an underscore, the kind is a word of lower-case letters.
pub proof fn lemma_lowering_temp_names(src: Seq<u8>, kind: Seq<char>, cursor: usize)
    requires
        is_lowering_kind(kind),
    ensures
        is_temp_name(temp_name(src, kind, cursor)),
        !(kind == "des_curs"@ || kind == "des_list"@ || kind == "des_len"@ || kind == "des_dict"@)
            ==> is_plain_temp_name(temp_name(src, kind, cursor)),
{
    reveal_strlit("ph");
    reveal_strlit("tmp");
    reveal_strlit("chk");
    reveal_strlit("fnexp");
    reveal_strlit("clsexp");
    reveal_strlit("ifexp");
    reveal_strlit("matchexp");
    reveal_strlit("des_curs");
    reveal_strlit("des_list");
    reveal_strlit("des_len");
    reveal_strlit("des_dict");
    lemma_temp_name_form(src, kind, cursor);
    if !(kind == "des_curs"@ || kind == "des_list"@ || kind == "des_len"@ || kind == "des_dict"@) {
        lemma_temp_name_shape(src, kind, cursor);
    }
}

/// The one-character text of a decimal digit.
pub fn digit_str(d: usize) -> (s: &'static str)
    requires
        d < 10,
    ensures
        s@ == seq![digit_char(d as int)],
{
    proof {
        reveal_strlit("0");
        reveal_strlit("1");
        reveal_strlit("2");
        reveal_strlit("3");
        reveal_strlit("4");
        reveal_strlit("5");
        reveal_strlit("6");
        reveal_strlit("7");
        reveal_strlit("8");
        reveal_strlit("9");
    }
    let s = if d == 0 {
        "0"
    } else if d == 1 {
        "1"
    } else if d == 2 {
        "2"
    } else if d == 3 {
        "3"
    } else if d == 4 {
        "4"
    } else if d == 5 {
        "5"
    } else if d == 6 {
        "6"
    } else if d == 7 {
        "7"
    } else if d == 8 {
        "8"
    } else {
        "9"
    };
    assert(s@ =~= seq![digit_char(d as int)]);
    s
}

/// The decimal text of `n`.
pub fn decimal_string(n: usize) -> (s: String)
    ensures
        s@ == decimal(n as nat),
    decreases n,
{
    if n < 10 {
        digit_str(n).to_owned()
    } else {
        let mut s = decimal_string(n / 10);
        s.append(digit_str(n % 10));
        s
    }
}

/// The decimal text of `magnitude`, or of its negation where `negative` is set
/// and `magnitude` is not zero.
pub fn signed_decimal_string(negative: bool, magnitude: usize) -> (s: String)
    ensures
        s@ == int_text(
            if negative {
                -(magnitude as int)
            } else {
                magnitude as int
            },
        ),
{
    if negative && magnitude > 0 {
        proof {
            reveal_strlit("-");
        }
        let mut s = "-".to_owned();
        let digits = decimal_string(magnitude);
        s.append(digits.as_str());
        assert(s@ =~= seq!['-'] + decimal(magnitude as nat));
        s
    } else {
        decimal_string(magnitude)
    }
}

} // verus!
