//! From a title to a slug: the key under which a note is filed.

use vstd::prelude::*;

verus! {

/// The character that stands for a run of whitespace in a slug.
pub const SEPARATOR: char = '_';

/// Whether `c` is whitespace: a code point with the Unicode property
/// `White_Space`.
pub open spec fn is_space(c: char) -> bool {
    let n = c as u32;
    ||| 0x09 <= n <= 0x0D
    ||| n == 0x20
    ||| n == 0x85
    ||| n == 0xA0
    ||| n == 0x1680
    ||| 0x2000 <= n <= 0x200A
    ||| n == 0x2028
    ||| n == 0x2029
    ||| n == 0x202F
    ||| n == 0x205F
    ||| n == 0x3000
}

/// Whether `c` is whitespace.
pub fn is_whitespace(c: char) -> (b: bool)
    ensures
        b == is_space(c),
{
    let n: u32 = c as u32;
    (0x09 <= n && n <= 0x0D) || n == 0x20 || n == 0x85 || n == 0xA0 || n == 0x1680 || (0x2000 <= n
        && n <= 0x200A) || n == 0x2028 || n == 0x2029 || n == 0x202F || n == 0x205F || n == 0x3000
}

/// The slug of a title: each character that is not whitespace stays as it is,
/// and each maximal run of whitespace becomes one separator. Case and
/// punctuation are kept.
pub open spec fn slugify(title: Seq<char>) -> Seq<char>
    decreases title.len(),
{
    if title.len() == 0 {
        Seq::empty()
    } else {
        let head = title.drop_last();
        let c = title.last();
        if !is_space(c) {
            slugify(head).push(c)
        } else if head.len() > 0 && is_space(head.last()) {
            slugify(head)
        } else {
            slugify(head).push(SEPARATOR)
        }
    }
}

/// A slug holds no whitespace.
pub proof fn law_slug_has_no_whitespace(title: Seq<char>)
    ensures
        forall|i: int| 0 <= i < slugify(title).len() ==> !is_space(#[trigger] slugify(title)[i]),
    decreases title.len(),
{
    if title.len() > 0 {
        let head = slugify(title.drop_last());
        law_slug_has_no_whitespace(title.drop_last());
        assert(!is_space(SEPARATOR));
        assert forall|i: int| 0 <= i < slugify(title).len() implies !is_space(
            #[trigger] slugify(title)[i],
        ) by {
            if i < head.len() {
                assert(slugify(title)[i] == head[i]);
            }
        }
    }
}

/// A title without whitespace is its own slug.
pub proof fn law_plain_title_is_its_slug(title: Seq<char>)
    requires
        forall|i: int| 0 <= i < title.len() ==> !is_space(#[trigger] title[i]),
    ensures
        slugify(title) == title,
    decreases title.len(),
{
    if title.len() > 0 {
        law_plain_title_is_its_slug(title.drop_last());
        assert(title.drop_last().push(title.last()) == title);
    }
}

/// A slug is no longer than its title, and a title that is not empty has a
/// slug that is not empty.
pub proof fn law_slug_length(title: Seq<char>)
    ensures
        slugify(title).len() <= title.len(),
        title.len() > 0 ==> slugify(title).len() > 0,
    decreases title.len(),
{
    if title.len() > 0 {
        law_slug_length(title.drop_last());
    }
}

/// Computes the slug of `title`.
pub fn slug_of(title: &str) -> (slug: String)
    ensures
        slug@ == slugify(title@),
{
    let mut slug = String::new();
    let mut in_run = false;
    for c in it: title.chars()
        invariant
            it.seq() == title@,
            slug@ == slugify(title@.take(it.index() as int)),
            in_run == (it.index() > 0 && is_space(title@[it.index() - 1])),
    {
        proof {
            let i = it.index() as int;
            assert(title@.take(i + 1).drop_last() == title@.take(i));
            assert(title@.take(i + 1).last() == title@[i]);
        }
        let space = is_whitespace(c);
        if !space {
            slug.push(c);
        } else if !in_run {
            slug.push(SEPARATOR);
        }
        in_run = space;
    }
    proof {
        assert(title@.take(title@.len() as int) == title@);
    }
    slug
}

} // verus!
