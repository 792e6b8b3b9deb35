//! Canonical path expressions for positions in a JSON tree.

use vstd::prelude::*;

verus! {

/// The character that writes the decimal digit `d`.
pub open spec fn digit_char(d: nat) -> char {
    if d == 0 {
        '0'
    } else if d == 1 {
        '1'
    } else if d == 2 {
        '2'
    } else if d == 3 {
        '3'
    } else if d == 4 {
        '4'
    } else if d == 5 {
        '5'
    } else if d == 6 {
        '6'
    } else if d == 7 {
        '7'
    } else if d == 8 {
        '8'
    } else {
        '9'
    }
}

/// The decimal numeral of `n`, most significant digit first, without
/// leading zeros.
pub open spec fn decimal(n: nat) -> Seq<char>
    decreases n,
{
    if n < 10 {
        seq![digit_char(n)]
    } else {
        decimal(n / 10).push(digit_char(n % 10))
    }
}

/// The path of the document root.
pub open spec fn root_path() -> Seq<char> {
    seq!['$']
}

/// The path of field `key` below `path`. Under a type matcher the segment is
/// the wildcard `.*` whatever the key.
pub open spec fn field_path(path: Seq<char>, key: Seq<char>, type_matcher: bool) -> Seq<char> {
    if type_matcher {
        path + seq!['.', '*']
    } else {
        path + seq!['.'] + key
    }
}

/// The path of element `index` below `path`. Under a type matcher the
/// segment is the wildcard `[*]` whatever the index.
pub open spec fn index_path(path: Seq<char>, index: nat, type_matcher: bool) -> Seq<char> {
    if type_matcher {
        path + seq!['[', '*', ']']
    } else {
        path + seq!['['] + decimal(index) + seq![']']
    }
}

fn digit_str(d: usize) -> (s: &'static str)
    requires
        d < 10,
    ensures
        s@ == seq![digit_char(d as nat)],
{
    proof {
        reveal_strlit("0");
        reveal_strlit("1");
        reveal_strlit("2");
        reveal_strlit("3");
        reveal_strlit("4");
        reveal_strlit("5");
        reveal_strlit("6");
        reveal_strlit("7");
        reveal_strlit("8");
        reveal_strlit("9");
    }
    let s = if d == 0 {
        "0"
    } else if d == 1 {
        "1"
    } else if d == 2 {
        "2"
    } else if d == 3 {
        "3"
    } else if d == 4 {
        "4"
    } else if d == 5 {
        "5"
    } else if d == 6 {
        "6"
    } else if d == 7 {
        "7"
    } else if d == 8 {
        "8"
    } else {
        "9"
    };
    assert(s@ =~= seq![digit_char(d as nat)]);
    s
}

/// Writes `n` as a decimal numeral.
pub fn decimal_string(n: usize) -> (s: String)
    ensures
        s@ == decimal(n as nat),
    decreases n,
{
    if n < 10 {
        String::from_str(digit_str(n))
    } else {
        let head = decimal_string(n / 10);
        let s = head.concat(digit_str(n % 10));
        assert(s@ =~= decimal(n as nat));
        s
    }
}

/// The path of the document root, `$`.
pub fn root() -> (s: String)
    ensures
        s@ == root_path(),
{
    proof {
        reveal_strlit("$");
    }
    let s = String::from_str("$");
    assert(s@ =~= root_path());
    s
}

/// Extends `path` by the segment of an object field.
pub fn field_segment(path: &String, key: &String, type_matcher: bool) -> (s: String)
    ensures
        s@ == field_path(path@, key@, type_matcher),
{
    proof {
        reveal_strlit(".*");
        reveal_strlit(".");
    }
    let s = if type_matcher {
        path.clone().concat(".*")
    } else {
        path.clone().concat(".").concat(key.as_str())
    };
    assert(s@ =~= field_path(path@, key@, type_matcher));
    s
}

/// Extends `path` by the segment of an array element.
pub fn index_segment(path: &String, index: usize, type_matcher: bool) -> (s: String)
    ensures
        s@ == index_path(path@, index as nat, type_matcher),
{
    proof {
        reveal_strlit("[*]");
        reveal_strlit("[");
        reveal_strlit("]");
    }
    let s = if type_matcher {
        path.clone().concat("[*]")
    } else {
        let digits = decimal_string(index);
        path.clone().concat("[").concat(digits.as_str()).concat("]")
    };
    assert(s@ =~= index_path(path@, index as nat, type_matcher));
    s
}

} // verus!
