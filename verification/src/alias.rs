//! The names under which a creature is looked up.

use crate::text::chars_of;
use crate::text::string_of;
use vstd::prelude::*;
use vstd::string::*;

verus! {

/// The lowercase form of a text, as `str::to_lowercase` of std gives it.
pub uninterp spec fn lowercased(text: Seq<char>) -> Seq<char>;

/// The lowercase form of a text.
///
/// Trusted: `str::to_lowercase`, which std documents as returning the
/// lowercase equivalent of the slice by the rules of Unicode. The rules are
/// not written out here; the result only has a name.
#[verifier::external_body]
pub(crate) fn to_lowercase(text: &str) -> (lower: String)
    ensures
        lower@ == lowercased(text@),
{
    text.to_lowercase()
}

/// The text with a hyphen in place of every space.
pub open spec fn hyphenated(text: Seq<char>) -> Seq<char> {
    Seq::new(
        text.len(),
        |i: int|
            if text[i] == ' ' {
                '-'
            } else {
                text[i]
            },
    )
}

/// The alias of a creature: its name in lowercase, with hyphens for spaces.
pub open spec fn alias_text(name: Seq<char>) -> Seq<char> {
    hyphenated(lowercased(name))
}

/// Whether the text begins with `"-mega"`.
pub open spec fn mega_ahead(text: Seq<char>) -> bool {
    text.len() >= 5 && text.take(5) == "-mega"@
}

/// The text without any `"-mega"` in it, read from the left.
pub open spec fn without_mega(text: Seq<char>) -> Seq<char>
    decreases text.len(),
{
    if text.len() == 0 {
        text
    } else if mega_ahead(text) {
        without_mega(text.skip(5))
    } else {
        seq![text[0]] + without_mega(text.skip(1))
    }
}

/// Puts a hyphen in place of every space.
pub fn hyphenate(text: &str) -> (out: String)
    ensures
        out@ == hyphenated(text@),
{
    let chars = chars_of(text);
    let mut changed: Vec<char> = Vec::new();
    let mut i: usize = 0;
    while i < chars.len()
        invariant
            i <= chars.len(),
            chars@ == text@,
            changed@ == hyphenated(text@).take(i as int),
        decreases chars.len() - i,
    {
        if chars[i] == ' ' {
            changed.push('-');
        } else {
            changed.push(chars[i]);
        }
        i += 1;
        assert(changed@ =~= hyphenated(text@).take(i as int));
    }
    assert(hyphenated(text@).take(chars.len() as int) =~= hyphenated(text@));
    string_of(&changed)
}

/// The alias under which a creature of the listing is looked up first.
pub fn alias_of(name: &str) -> (alias: String)
    ensures
        alias@ == alias_text(name@),
{
    let lower = to_lowercase(name);
    hyphenate(lower.as_str())
}

/// The alias under which a creature is looked up when the first alias has
/// failed: the listing names mega forms where the detail pages do not.
pub fn strip_mega(alias: &str) -> (out: String)
    ensures
        out@ == without_mega(alias@),
{
    let chars = chars_of(alias);
    let mut kept: Vec<char> = Vec::new();
    let mut i: usize = 0;
    proof {
        assert(alias@.skip(0) =~= alias@);
        assert(kept@ + without_mega(alias@) =~= without_mega(alias@));
    }
    while i < chars.len()
        invariant
            i <= chars.len(),
            chars@ == alias@,
            without_mega(alias@) == kept@ + without_mega(alias@.skip(i as int)),
        decreases chars.len() - i,
    {
        let ghost rest = alias@.skip(i as int);
        proof {
            reveal_strlit("-mega");
            assert(rest[0] == chars@[i as int]);
        }
        if chars.len() - i >= 5 && chars[i] == '-' && chars[i + 1] == 'm' && chars[i + 2] == 'e'
            && chars[i + 3] == 'g' && chars[i + 4] == 'a' {
            proof {
                assert(rest.take(5) =~= "-mega"@);
                assert(rest.skip(5) =~= alias@.skip(i + 5));
            }
            i += 5;
        } else {
            proof {
                if rest.len() >= 5 && rest.take(5) == "-mega"@ {
                    assert(rest.take(5)[0] == '-');
                    assert(rest.take(5)[1] == 'm');
                    assert(rest.take(5)[2] == 'e');
                    assert(rest.take(5)[3] == 'g');
                    assert(rest.take(5)[4] == 'a');
                    assert(false);
                }
                assert(rest.skip(1) =~= alias@.skip(i + 1));
                assert(kept@.push(chars@[i as int]) + without_mega(rest.skip(1)) =~= kept@ + (
                seq![rest[0]] + without_mega(rest.skip(1))));
            }
            kept.push(chars[i]);
            i += 1;
        }
    }
    proof {
        assert(alias@.skip(chars.len() as int) =~= Seq::<char>::empty());
        assert(kept@ + Seq::<char>::empty() =~= kept@);
    }
    string_of(&kept)
}

} // verus!
