//! Initials extraction: a display name is cut into parts at runs of
//! delimiters (Unicode white space, commas, hyphens), and the initials are
//! the uppercased first characters of the first and last parts — or a lone
//! `'?'` when the name holds no part at all.
//!
//! Uppercasing policy: a character's initial is the first character of its
//! Unicode uppercase mapping, so the result always has one or two
//! characters.

use vstd::prelude::*;

verus! {

/// Unicode white space, the characters with the White_Space property.
pub open spec fn is_space(c: char) -> bool {
    ||| c == '\u{0009}'
    ||| c == '\u{000A}'
    ||| c == '\u{000B}'
    ||| c == '\u{000C}'
    ||| c == '\u{000D}'
    ||| c == ' '
    ||| c == '\u{0085}'
    ||| c == '\u{00A0}'
    ||| c == '\u{1680}'
    ||| c == '\u{2000}'
    ||| c == '\u{2001}'
    ||| c == '\u{2002}'
    ||| c == '\u{2003}'
    ||| c == '\u{2004}'
    ||| c == '\u{2005}'
    ||| c == '\u{2006}'
    ||| c == '\u{2007}'
    ||| c == '\u{2008}'
    ||| c == '\u{2009}'
    ||| c == '\u{200A}'
    ||| c == '\u{2028}'
    ||| c == '\u{2029}'
    ||| c == '\u{202F}'
    ||| c == '\u{205F}'
    ||| c == '\u{3000}'
}

/// A delimiter between name parts: white space, a comma or a hyphen.
pub open spec fn is_delim(c: char) -> bool {
    is_space(c) || c == ',' || c == '-'
}

/// Runtime test matching `is_delim`.
pub fn delim(c: char) -> (b: bool)
    ensures
        b == is_delim(c),
{
    c == '\u{0009}' || c == '\u{000A}' || c == '\u{000B}' || c == '\u{000C}' || c == '\u{000D}'
        || c == ' ' || c == '\u{0085}' || c == '\u{00A0}' || c == '\u{1680}' || c == '\u{2000}'
        || c == '\u{2001}' || c == '\u{2002}' || c == '\u{2003}' || c == '\u{2004}' || c
        == '\u{2005}' || c == '\u{2006}' || c == '\u{2007}' || c == '\u{2008}' || c == '\u{2009}'
        || c == '\u{200A}' || c == '\u{2028}' || c == '\u{2029}' || c == '\u{202F}' || c
        == '\u{205F}' || c == '\u{3000}' || c == ',' || c == '-'
}

/// The name holds at least one part: some character is not a delimiter.
pub open spec fn has_part(s: Seq<char>) -> bool {
    exists|i: int| 0 <= i < s.len() && !is_delim(s[i])
}

/// Index `i` starts a part: a non-delimiter either at the front or right
/// after a delimiter.
pub open spec fn part_start(s: Seq<char>, i: int) -> bool {
    &&& 0 <= i < s.len()
    &&& !is_delim(s[i])
    &&& (i == 0 || is_delim(s[i - 1]))
}

/// Index `i` holds the first letter: the first non-delimiter character.
pub open spec fn first_letter_at(s: Seq<char>, i: int) -> bool {
    &&& 0 <= i < s.len()
    &&& !is_delim(s[i])
    &&& (forall|j: int| 0 <= j < i ==> is_delim(s[j]))
}

/// Index `i` starts the last part: a part start with no later part start.
pub open spec fn last_part_start_at(s: Seq<char>, i: int) -> bool {
    &&& part_start(s, i)
    &&& (forall|j: int| i < j < s.len() ==> !part_start(s, j))
}

/// The name splits into exactly one part.
pub open spec fn single_part(s: Seq<char>) -> bool {
    forall|i: int, j: int| part_start(s, i) && part_start(s, j) ==> i == j
}

/// What `extract_initials` returns for a name with contents `s`:
/// - one or two characters, always;
/// - the lone `'?'` exactly when the name has no part;
/// - otherwise the uppercased first letter, followed — when the name has
///   more than one part — by the uppercased first character of the last
///   part.
pub open spec fn initials_spec(s: Seq<char>, r: Seq<char>) -> bool {
    &&& 1 <= r.len() <= 2
    &&& (!has_part(s) ==> r =~= seq!['?'])
    &&& (has_part(s) ==> (forall|i: int|
        first_letter_at(s, i) ==> r[0] == upper_first_of(s[i])))
    &&& (has_part(s) && single_part(s) ==> r.len() == 1)
    &&& (has_part(s) && !single_part(s) ==> {
        &&& r.len() == 2
        &&& (forall|i: int| last_part_start_at(s, i) ==> r[1] == upper_first_of(s[i]))
    })
}

/// The first character of the Unicode uppercase mapping of a character.
pub uninterp spec fn upper_first_of(c: char) -> char;

/// Relies on char::to_uppercase: yields the Unicode uppercase mapping of
/// the character as one or more characters; this library keeps only the
/// first of them, a function of the character alone.
#[verifier::external_body]
fn upper_first(c: char) -> (r: char)
    ensures
        r == upper_first_of(c),
{
    let mut mapped = c.to_uppercase();
    mapped.next().unwrap_or(c)
}

/// Relies on String::push: appends the given character to the end.
#[verifier::external_body]
fn push_char(s: &mut String, c: char)
    ensures
        final(s)@ == old(s)@.push(c),
{
    s.push(c);
}

/// Some part start lies at or before any non-delimiter index.
proof fn lemma_part_start_exists(s: Seq<char>, k: int)
    requires
        0 <= k < s.len(),
        !is_delim(s[k]),
    ensures
        exists|i: int| part_start(s, i),
    decreases k,
{
    if k == 0 || is_delim(s[k - 1]) {
        assert(part_start(s, k));
    } else {
        lemma_part_start_exists(s, k - 1);
    }
}

/// A name with a non-delimiter character has a first letter.
proof fn lemma_first_letter_exists(s: Seq<char>, k: int)
    requires
        0 <= k < s.len(),
        !is_delim(s[k]),
    ensures
        exists|i: int| first_letter_at(s, i),
    decreases k,
{
    if forall|j: int| 0 <= j < k ==> is_delim(s[j]) {
        assert(first_letter_at(s, k));
    } else {
        let j = choose|j: int| 0 <= j < k && !is_delim(s[j]);
        lemma_first_letter_exists(s, j);
    }
}

/// Above any part start lies a last part start.
proof fn lemma_last_start_exists(s: Seq<char>, k: int)
    requires
        part_start(s, k),
    ensures
        exists|i: int| last_part_start_at(s, i),
    decreases s.len() - k,
{
    if forall|j: int| k < j < s.len() ==> !part_start(s, j) {
        assert(last_part_start_at(s, k));
    } else {
        let j = choose|j: int| k < j < s.len() && part_start(s, j);
        lemma_last_start_exists(s, j);
    }
}

/// The first letter index is unique.
proof fn lemma_first_letter_unique(s: Seq<char>, i: int, j: int)
    requires
        first_letter_at(s, i),
        first_letter_at(s, j),
    ensures
        i == j,
{
    if i < j {
        assert(is_delim(s[i]));
    }
    if j < i {
        assert(is_delim(s[j]));
    }
}

/// The last part start index is unique.
proof fn lemma_last_start_unique(s: Seq<char>, i: int, j: int)
    requires
        last_part_start_at(s, i),
        last_part_start_at(s, j),
    ensures
        i == j,
{
    if i < j {
        assert(!part_start(s, j));
    }
    if j < i {
        assert(!part_start(s, i));
    }
}

/// Initials are a function of the name's contents: any two results that
/// satisfy `initials_spec` for the same contents are equal.
pub proof fn lemma_initials_deterministic(s: Seq<char>, r1: Seq<char>, r2: Seq<char>)
    requires
        initials_spec(s, r1),
        initials_spec(s, r2),
    ensures
        r1 == r2,
{
    if !has_part(s) {
        assert(r1 =~= r2);
    } else {
        let k = choose|k: int| 0 <= k < s.len() && !is_delim(s[k]);
        lemma_first_letter_exists(s, k);
        let f = choose|i: int| first_letter_at(s, i);
        assert(r1[0] == upper_first_of(s[f]));
        assert(r2[0] == upper_first_of(s[f]));
        if single_part(s) {
            assert(r1 =~= r2);
        } else {
            lemma_part_start_exists(s, k);
            let p = choose|i: int| part_start(s, i);
            lemma_last_start_exists(s, p);
            let l = choose|i: int| last_part_start_at(s, i);
            assert(r1[1] == upper_first_of(s[l]));
            assert(r2[1] == upper_first_of(s[l]));
            assert(r1 =~= r2);
        }
    }
}

/// The index of the first letter, or None when the name has no part.
fn first_letter_index(name: &str) -> (r: Option<usize>)
    ensures
        match r {
            Some(i) => first_letter_at(name@, i as int),
            None => !has_part(name@),
        },
{
    let n = name.unicode_len();
    let mut i: usize = 0;
    while i < n
        invariant
            i <= n,
            n == name@.len(),
            forall|j: int| 0 <= j < i ==> is_delim(name@[j]),
        decreases n - i,
    {
        let c = name.get_char(i);
        if !delim(c) {
            return Some(i);
        }
        i = i + 1;
    }
    None
}

/// The index of the last part start, or None when the name has no part.
fn last_start_index(name: &str) -> (r: Option<usize>)
    ensures
        match r {
            Some(i) => last_part_start_at(name@, i as int),
            None => !has_part(name@),
        },
{
    let n = name.unicode_len();
    let mut best: Option<usize> = None;
    let mut prev_delim: bool = true;
    let mut i: usize = 0;
    while i < n
        invariant
            i <= n,
            n == name@.len(),
            i > 0 ==> prev_delim == is_delim(name@[i - 1]),
            match best {
                Some(b) => {
                    &&& b < i
                    &&& part_start(name@, b as int)
                    &&& (forall|j: int| b < j < i ==> !part_start(name@, j))
                },
                None => forall|j: int| 0 <= j < i ==> !part_start(name@, j),
            },
        decreases n - i,
    {
        let c = name.get_char(i);
        let cd = delim(c);
        if !cd && (i == 0 || prev_delim) {
            best = Some(i);
        }
        prev_delim = cd;
        i = i + 1;
    }
    proof {
        if best is None && has_part(name@) {
            let k = choose|k: int| 0 <= k < name@.len() && !is_delim(name@[k]);
            lemma_part_start_exists(name@, k);
        }
    }
    best
}

/// Extracts the initials of a display name: the uppercased first characters
/// of its first and last parts, or `"?"` when no part exists. Never fails,
/// and the result always holds one or two characters.
pub fn extract_initials(name: &str) -> (r: String)
    ensures
        initials_spec(name@, r@),
{
    let first = first_letter_index(name);
    match first {
        None => {
            proof {
                reveal_strlit("?");
            }
            let r = "?".to_owned();
            r
        },
        Some(f) => {
            assert(has_part(name@)) by {
                assert(!is_delim(name@[f as int]));
            }
            let lopt = last_start_index(name);
            assert(lopt is Some) by {
                if lopt is None {
                    assert(!has_part(name@));
                }
            }
            let l = lopt.unwrap();
            let c0 = name.get_char(f);
            let mut r = String::new();
            push_char(&mut r, upper_first(c0));
            proof {
                assert forall|i: int| first_letter_at(name@, i) implies r@[0] == upper_first_of(
                    name@[i],
                ) by {
                    lemma_first_letter_unique(name@, i, f as int);
                }
            }
            if f == l {
                proof {
                    assert forall|i: int, j: int|
                        part_start(name@, i) && part_start(name@, j) implies i == j by {
                        assert(forall|k: int| 0 <= k < f ==> is_delim(name@[k]));
                        assert(i >= f && j >= f);
                        assert(i <= l as int && j <= l as int);
                    }
                    assert(single_part(name@));
                }
                r
            } else {
                let c1 = name.get_char(l);
                push_char(&mut r, upper_first(c1));
                proof {
                    assert(part_start(name@, f as int));
                    assert(part_start(name@, l as int));
                    assert(!single_part(name@));
                    assert forall|i: int| last_part_start_at(name@, i) implies r@[1]
                        == upper_first_of(name@[i]) by {
                        lemma_last_start_unique(name@, i, l as int);
                    }
                }
                r
            }
        },
    }
}

} // verus!
