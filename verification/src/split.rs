//! Splitting an IRI into a namespace prefix and an XML local name.
//!
//! The split scans the IRI from its end for the last character outside the
//! XML name-character class, then takes the local part to begin at the
//! first name-start character from that point on. When the IRI has no such
//! separator, or no name-start character follows the last one, the whole
//! IRI is the namespace part and the local part is empty.

use vstd::prelude::*;

use crate::name_chars::is_name_char;
use crate::name_chars::is_name_start_char;
use crate::name_chars::spec_is_name_char;
use crate::name_chars::spec_is_name_start_char;

verus! {

/// The greatest index of a character outside the name-character class, or
/// -1 when every character of `s` is a name character.
pub open spec fn last_non_name_char(s: Seq<char>) -> int
    decreases s.len(),
{
    if s.len() == 0 {
        -1
    } else if !spec_is_name_char(s[s.len() - 1]) {
        s.len() - 1
    } else {
        last_non_name_char(s.drop_last())
    }
}

/// The least index `i` in `[from, s.len())` whose character is a
/// name-start character, or `s.len()` when there is none.
pub open spec fn first_name_start_char_from(s: Seq<char>, from: int) -> int
    decreases s.len() - from,
{
    if from < 0 || from >= s.len() {
        s.len() as int
    } else if spec_is_name_start_char(s[from]) {
        from
    } else {
        first_name_start_char_from(s, from + 1)
    }
}

/// The index at which the IRI splits into namespace part and local part.
/// It is the IRI's length exactly when no valid local name can be cut off.
pub open spec fn spec_split_pos(s: Seq<char>) -> int {
    let base = last_non_name_char(s);
    if base == -1 {
        s.len() as int
    } else {
        first_name_start_char_from(s, base)
    }
}

/// The split of an IRI: its namespace part and its local part.
pub open spec fn spec_split_iri(s: Seq<char>) -> (Seq<char>, Seq<char>) {
    (s.take(spec_split_pos(s)), s.skip(spec_split_pos(s)))
}

/// `last_non_name_char` returns an index in range, it points at a
/// character outside the name-character class, and everything after it is
/// inside that class.
pub proof fn lemma_last_non_name_char(s: Seq<char>)
    ensures
        -1 <= last_non_name_char(s) < s.len(),
        last_non_name_char(s) >= 0 ==> !spec_is_name_char(s[last_non_name_char(s)]),
        forall|j: int|
            last_non_name_char(s) < j < s.len() ==> spec_is_name_char(#[trigger] s[j]),
    decreases s.len(),
{
    if s.len() > 0 && spec_is_name_char(s[s.len() - 1]) {
        lemma_last_non_name_char(s.drop_last());
        assert forall|j: int|
            last_non_name_char(s) < j < s.len() implies spec_is_name_char(#[trigger] s[j]) by {
            if j < s.len() - 1 {
                assert(s[j] == s.drop_last()[j]);
            }
        }
    }
}

/// `first_name_start_char_from` returns an index between `from` and the
/// length, it points at a name-start character when it is in range, and no
/// index in `[from, r)` does.
pub proof fn lemma_first_name_start_char_from(s: Seq<char>, from: int)
    requires
        0 <= from <= s.len(),
    ensures
        from <= first_name_start_char_from(s, from) <= s.len(),
        first_name_start_char_from(s, from) < s.len() ==> spec_is_name_start_char(
            s[first_name_start_char_from(s, from)],
        ),
        forall|i: int|
            from <= i < first_name_start_char_from(s, from) ==> !spec_is_name_start_char(
                #[trigger] s[i],
            ),
    decreases s.len() - from,
{
    if from < s.len() && !spec_is_name_start_char(s[from]) {
        lemma_first_name_start_char_from(s, from + 1);
    }
}

/// The split position lies in `[0, s.len()]`.
pub proof fn lemma_split_pos_in_range(s: Seq<char>)
    ensures
        0 <= spec_split_pos(s) <= s.len(),
{
    lemma_last_non_name_char(s);
    if last_non_name_char(s) >= 0 {
        lemma_first_name_start_char_from(s, last_non_name_char(s));
    }
}

/// Reconstruction: the namespace part followed by the local part is the
/// IRI itself.
pub proof fn lemma_split_reconstruction(s: Seq<char>)
    ensures
        spec_split_iri(s).0 + spec_split_iri(s).1 == s,
{
    lemma_split_pos_in_range(s);
    assert(spec_split_iri(s).0 + spec_split_iri(s).1 =~= s);
}

/// The local part, when it is not empty, is a valid XML name: it begins
/// with a name-start character and every one of its characters is a name
/// character.
pub proof fn lemma_split_local_is_xml_name(s: Seq<char>)
    ensures
        spec_split_iri(s).1.len() > 0 ==> spec_is_name_start_char(spec_split_iri(s).1[0]),
        forall|k: int|
            0 <= k < spec_split_iri(s).1.len() ==> spec_is_name_char(
                #[trigger] spec_split_iri(s).1[k],
            ),
{
    lemma_last_non_name_char(s);
    let base = last_non_name_char(s);
    if base >= 0 {
        lemma_first_name_start_char_from(s, base);
        let pos = spec_split_pos(s);
        assert(pos > base) by {
            if pos == base {
                assert(spec_is_name_start_char(s[base]));
                assert(spec_is_name_char(s[base]));
            }
        }
    }
}

/// Fallback: the local part is empty when the IRI has no separator at all
/// — every character is a name character — and when no name-start
/// character stands at or after the last separator.
pub proof fn lemma_split_fallback(s: Seq<char>)
    ensures
        last_non_name_char(s) == -1 ==> spec_split_iri(s).1.len() == 0,
        (forall|i: int|
            last_non_name_char(s) <= i < s.len() ==> !spec_is_name_start_char(#[trigger] s[i]))
            ==> spec_split_iri(s).1.len() == 0,
{
    lemma_last_non_name_char(s);
    let base = last_non_name_char(s);
    if base >= 0 {
        lemma_first_name_start_char_from(s, base);
        if forall|i: int| base <= i < s.len() ==> !spec_is_name_start_char(#[trigger] s[i]) {
            if first_name_start_char_from(s, base) < s.len() {
                assert(spec_is_name_start_char(s[first_name_start_char_from(s, base)]));
            }
        }
    }
}

/// Splits an IRI into a namespace part and a local part: the two
/// concatenate back to the IRI, and the local part is empty exactly when
/// no valid XML local name can be cut off the IRI's end.
pub fn split_iri(iri: &str) -> (r: (&str, &str))
    ensures
        r.0@ == spec_split_iri(iri@).0,
        r.1@ == spec_split_iri(iri@).1,
        r.0@ + r.1@ == iri@,
        r.1@.len() > 0 ==> spec_is_name_start_char(r.1@[0]),
        forall|k: int| 0 <= k < r.1@.len() ==> spec_is_name_char(#[trigger] r.1@[k]),
{
    proof {
        lemma_split_local_is_xml_name(iri@);
    }
    let len: usize = iri.unicode_len();
    proof {
        lemma_last_non_name_char(iri@);
    }
    let mut base: usize = len;
    let mut found_sep = false;
    // Scan from the end for the last character outside the name class.
    while base > 0
        invariant_except_break
            !found_sep,
            base <= len,
            len == iri@.len(),
            forall|j: int| base <= j < len ==> spec_is_name_char(#[trigger] iri@[j]),
            last_non_name_char(iri@) < base,
        ensures
            base <= len,
            len == iri@.len(),
            forall|j: int| base <= j < len ==> spec_is_name_char(#[trigger] iri@[j]),
            found_sep ==> 0 < base && !spec_is_name_char(iri@[base - 1]),
            !found_sep ==> base == 0,
        decreases base,
    {
        if !is_name_char(iri.get_char(base - 1)) {
            found_sep = true;
            break ;
        }
        proof {
            lemma_last_non_name_char(iri@);
            assert(last_non_name_char(iri@) != base - 1);
        }
        base = base - 1;
    }
    let pos: usize = if !found_sep {
        // Every character is a name character: no separator, no split.
        proof {
            lemma_last_non_name_char(iri@);
            assert(last_non_name_char(iri@) == -1);
        }
        len
    } else {
        proof {
            lemma_last_non_name_char(iri@);
            assert(last_non_name_char(iri@) == base - 1) by {
                let l = last_non_name_char(iri@);
                if l > base - 1 {
                    assert(spec_is_name_char(iri@[l]));
                }
                if l < base - 1 {
                    assert(spec_is_name_char(iri@[base - 1]));
                }
            }
        }
        // Scan forward from the separator for a name-start character.
        let ghost g_base: int = base - 1;
        let mut pos: usize = base - 1;
        let mut found_start = false;
        while pos < len
            invariant_except_break
                !found_start,
                g_base <= pos <= len,
                len == iri@.len(),
                0 <= g_base < len,
                forall|i: int| g_base <= i < pos ==> !spec_is_name_start_char(#[trigger] iri@[i]),
            ensures
                g_base <= pos <= len,
                len == iri@.len(),
                forall|i: int| g_base <= i < pos ==> !spec_is_name_start_char(#[trigger] iri@[i]),
                found_start ==> pos < len && spec_is_name_start_char(iri@[pos as int]),
                !found_start ==> pos == len,
            decreases len - pos,
        {
            if is_name_start_char(iri.get_char(pos)) {
                found_start = true;
                break ;
            }
            pos = pos + 1;
        }
        proof {
            lemma_first_name_start_char_from(iri@, g_base);
            let f = first_name_start_char_from(iri@, g_base);
            assert(f == pos) by {
                if f < pos {
                    assert(!spec_is_name_start_char(iri@[f]));
                }
                if pos < f {
                    assert(!spec_is_name_start_char(iri@[pos as int]));
                }
            }
        }
        pos
    };
    proof {
        assert(spec_split_pos(iri@) == pos);
        lemma_split_reconstruction(iri@);
    }
    let prefix = iri.substring_char(0, pos);
    let local = iri.substring_char(pos, len);
    proof {
        assert(prefix@ =~= spec_split_iri(iri@).0);
        assert(local@ =~= spec_split_iri(iri@).1);
    }
    (prefix, local)
}

} // verus!
