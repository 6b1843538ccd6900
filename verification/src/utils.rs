//! Small text helpers the interface compiler rests on: ASCII case
//! conversion, the snake-case to word-joined ("pascal case") conversion
//! used to derive wire names, character-exact string comparison, and
//! stripping the setter prefix from a property setter's name.

use vstd::prelude::*;

verus! {

/// `c` with an ASCII lowercase letter mapped to its uppercase form; any
/// other character is unchanged.
pub open spec fn spec_upper_char(c: char) -> char {
    if 'a' as u32 <= c as u32 && c as u32 <= 'z' as u32 {
        ((c as u32 - 32) as u8) as char
    } else {
        c
    }
}

/// The word-joined form of `s` given whether the next non-separator
/// character starts a new word: separators (`_`) are dropped, the first
/// character of each word is uppercased, the rest are kept as they are.
pub open spec fn spec_pascal_from(s: Seq<char>, cap: bool) -> Seq<char>
    decreases s.len(),
{
    if s.len() == 0 {
        Seq::<char>::empty()
    } else if s[0] == '_' {
        spec_pascal_from(s.drop_first(), true)
    } else if cap {
        seq![spec_upper_char(s[0])] + spec_pascal_from(s.drop_first(), false)
    } else {
        seq![s[0]] + spec_pascal_from(s.drop_first(), false)
    }
}

/// The capitalized, separator-free, word-joined form of `s`: split on `_`,
/// uppercase the first character of each segment, concatenate.
pub open spec fn spec_pascal_case(s: Seq<char>) -> Seq<char> {
    spec_pascal_from(s, true)
}

/// Relies on `String::push`: appends the given character to the end of
/// this string.
#[verifier::external_body]
fn push_char(s: &mut String, c: char)
    ensures
        final(s)@ == old(s)@.push(c),
{
    s.push(c);
}

/// Maps an ASCII lowercase letter to its uppercase form and leaves every
/// other character unchanged.
pub fn upper_char(c: char) -> (r: char)
    ensures
        r == spec_upper_char(c),
{
    let u = c as u32;
    if 'a' as u32 <= u && u <= 'z' as u32 {
        ((u - 32) as u8) as char
    } else {
        c
    }
}

/// The capitalized, separator-free, word-joined form of `s`.
pub fn pascal_case(s: &str) -> (r: String)
    ensures
        r@ == spec_pascal_case(s@),
{
    let n: usize = s.unicode_len();
    let mut r = String::new();
    let mut cap: bool = true;
    let mut i: usize = 0;
    proof {
        assert(s@.skip(0) =~= s@);
        assert(r@ + spec_pascal_from(s@, true) =~= spec_pascal_from(s@, true));
    }
    while i < n
        invariant
            i <= n,
            n == s@.len(),
            spec_pascal_case(s@) == r@ + spec_pascal_from(s@.skip(i as int), cap),
        decreases n - i,
    {
        let ghost prefix = r@;
        let ghost rest = s@.skip(i as int);
        let c = s.get_char(i);
        proof {
            assert(rest[0] == s@[i as int]);
            assert(rest.drop_first() =~= s@.skip(i as int + 1));
        }
        if c == '_' {
            cap = true;
        } else if cap {
            let u = upper_char(c);
            push_char(&mut r, u);
            cap = false;
            proof {
                assert(prefix + (seq![spec_upper_char(c)] + rest.drop_first().skip(0)) =~= r@
                    + rest.drop_first().skip(0));
                assert(rest.drop_first().skip(0) =~= rest.drop_first());
            }
        } else {
            push_char(&mut r, c);
            proof {
                assert(prefix + (seq![c] + rest.drop_first().skip(0)) =~= r@ + rest.drop_first().skip(
                    0,
                ));
                assert(rest.drop_first().skip(0) =~= rest.drop_first());
            }
        }
        i = i + 1;
    }
    proof {
        assert(s@.skip(n as int) =~= Seq::<char>::empty());
        assert(r@ + Seq::<char>::empty() =~= r@);
    }
    r
}

/// Character-exact comparison of two strings.
pub fn str_eq(a: &str, b: &str) -> (r: bool)
    ensures
        r == (a@ == b@),
{
    let na: usize = a.unicode_len();
    let nb: usize = b.unicode_len();
    if na != nb {
        return false;
    }
    let mut i: usize = 0;
    while i < na
        invariant
            i <= na,
            na == a@.len(),
            na == b@.len(),
            forall|j: int| 0 <= j < i ==> a@[j] == b@[j],
        decreases na - i,
    {
        let ca = a.get_char(i);
        let cb = b.get_char(i);
        if ca != cb {
            return false;
        }
        i = i + 1;
    }
    proof {
        assert(a@ =~= b@);
    }
    true
}

/// Whether `name` begins with the setter prefix `set_`.
pub open spec fn spec_has_setter_prefix(name: Seq<char>) -> bool {
    name.len() >= 4 && name.subrange(0, 4) == "set_"@
}

/// The setter's property name: everything after the leading `set_`.
pub open spec fn spec_strip_setter_prefix(name: Seq<char>) -> Seq<char> {
    name.skip(4)
}

/// Strips the leading `set_` from a setter's name, or reports that the
/// name does not begin with it.
pub fn strip_setter_prefix(name: &str) -> (r: Option<&str>)
    ensures
        match r {
            Some(rest) => spec_has_setter_prefix(name@) && rest@ == spec_strip_setter_prefix(
                name@,
            ),
            None => !spec_has_setter_prefix(name@),
        },
{
    proof {
        reveal_strlit("set_");
    }
    let n: usize = name.unicode_len();
    if n < 4 {
        proof {
            assert(!spec_has_setter_prefix(name@));
        }
        return None;
    }
    if name.get_char(0) != 's' || name.get_char(1) != 'e' || name.get_char(2) != 't'
        || name.get_char(3) != '_' {
        proof {
            assert(name@.subrange(0, 4) != "set_"@) by {
                if name@.subrange(0, 4) == "set_"@ {
                    assert(name@.subrange(0, 4)[0] == 's');
                    assert(name@.subrange(0, 4)[1] == 'e');
                    assert(name@.subrange(0, 4)[2] == 't');
                    assert(name@.subrange(0, 4)[3] == '_');
                }
            }
        }
        return None;
    }
    let rest = name.substring_char(4, n);
    proof {
        assert(name@.subrange(0, 4) =~= "set_"@);
        assert(rest@ =~= spec_strip_setter_prefix(name@));
    }
    Some(rest)
}

} // verus!
