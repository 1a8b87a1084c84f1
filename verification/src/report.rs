//! The listing of the tags of the two seeded images, as lines of text.
//!
//! For each image the listing holds a header with the number of its tags and
//! then one line per tag, with the tag's identity and label:
//!
//! ```text
//! Image 1 has 2 tags.
//! 1: cat
//! 2: cute
//! Image 2 has 0 tags.
//! ```

use vstd::prelude::*;
use vstd::string::StringExecFns;
use crate::model::{Tag, TagView, tag_views};

verus! {

/// The character of the decimal digit `d`.
pub open spec fn digit(d: int) -> char {
    if d == 0 {
        '0'
    } else if d == 1 {
        '1'
    } else if d == 2 {
        '2'
    } else if d == 3 {
        '3'
    } else if d == 4 {
        '4'
    } else if d == 5 {
        '5'
    } else if d == 6 {
        '6'
    } else if d == 7 {
        '7'
    } else if d == 8 {
        '8'
    } else {
        '9'
    }
}

/// The decimal numeral of `n`, without leading zeros.
pub open spec fn decimal(n: nat) -> Seq<char>
    decreases n,
{
    if n < 10 {
        seq![digit(n as int)]
    } else {
        decimal(n / 10).push(digit((n % 10) as int))
    }
}

/// The decimal numeral of `n`, with a minus sign where `n` is negative.
pub open spec fn signed_decimal(n: int) -> Seq<char> {
    if n < 0 {
        seq!['-'] + decimal((-n) as nat)
    } else {
        decimal(n as nat)
    }
}

/// The header of the tags of the image at `position` in the listing.
pub open spec fn header(position: nat, count: nat) -> Seq<char> {
    "Image "@ + decimal(position) + " has "@ + decimal(count) + " tags."@
}

/// The line of one tag: its identity, a colon and its label.
pub open spec fn tag_line(tag: TagView) -> Seq<char> {
    signed_decimal(tag.id as int) + ": "@ + tag.label
}

/// The lines of `tags`, in the same order.
pub open spec fn tag_lines(tags: Seq<TagView>) -> Seq<Seq<char>> {
    Seq::new(tags.len(), |i: int| tag_line(tags[i]))
}

/// The header of the image at `position`, then the lines of its tags.
pub open spec fn lines_of(position: nat, tags: Seq<TagView>) -> Seq<Seq<char>> {
    seq![header(position, tags.len())] + tag_lines(tags)
}

/// The texts of a sequence of strings, in the same order.
pub open spec fn texts(lines: Seq<String>) -> Seq<Seq<char>> {
    lines.map_values(|line: String| line@)
}

fn digit_text(d: u64) -> (r: &'static str)
    requires
        d < 10,
    ensures
        r@ == seq![digit(d as int)],
{
    proof {
        reveal_strlit("0");
        reveal_strlit("1");
        reveal_strlit("2");
        reveal_strlit("3");
        reveal_strlit("4");
        reveal_strlit("5");
        reveal_strlit("6");
        reveal_strlit("7");
        reveal_strlit("8");
        reveal_strlit("9");
    }
    let text = if d == 0 {
        "0"
    } else if d == 1 {
        "1"
    } else if d == 2 {
        "2"
    } else if d == 3 {
        "3"
    } else if d == 4 {
        "4"
    } else if d == 5 {
        "5"
    } else if d == 6 {
        "6"
    } else if d == 7 {
        "7"
    } else if d == 8 {
        "8"
    } else {
        "9"
    };
    assert(text@ =~= seq![digit(d as int)]);
    text
}

/// The decimal numeral of `n`.
pub fn decimal_text(n: u64) -> (r: String)
    ensures
        r@ == decimal(n as nat),
    decreases n,
{
    if n < 10 {
        String::from_str(digit_text(n))
    } else {
        let mut text = decimal_text(n / 10);
        text.append(digit_text(n % 10));
        assert(text@ =~= decimal((n / 10) as nat).push(digit((n % 10) as int)));
        text
    }
}

/// The decimal numeral of `n`, with its sign.
pub fn signed_decimal_text(n: i32) -> (r: String)
    ensures
        r@ == signed_decimal(n as int),
{
    let wide: i64 = n as i64;
    if wide < 0 {
        proof {
            reveal_strlit("-");
        }
        let digits = decimal_text((-wide) as u64);
        let text = String::from_str("-").concat(digits.as_str());
        assert(text@ =~= seq!['-'] + decimal((-n) as nat));
        text
    } else {
        decimal_text(wide as u64)
    }
}

/// The header of the tags of the image at `position`.
pub fn header_text(position: usize, count: usize) -> (r: String)
    ensures
        r@ == header(position as nat, count as nat),
{
    let mut text = String::from_str("Image ");
    text.append(decimal_text(position as u64).as_str());
    text.append(" has ");
    text.append(decimal_text(count as u64).as_str());
    text.append(" tags.");
    text
}

/// The line of one tag.
pub fn tag_line_text(tag: &Tag) -> (r: String)
    ensures
        r@ == tag_line(tag@),
{
    let mut text = signed_decimal_text(tag.id);
    text.append(": ");
    text.append(tag.label.as_str());
    text
}

/// Appends the header of the image at `position` and the lines of its tags.
fn push_lines(lines: &mut Vec<String>, position: usize, tags: &Vec<Tag>)
    ensures
        texts(final(lines)@) == texts(old(lines)@) + lines_of(position as nat, tag_views(tags@)),
{
    let ghost before = texts(lines@);
    let ghost rows = tag_views(tags@);
    lines.push(header_text(position, tags.len()));
    assert(texts(lines@) =~= before + seq![header(position as nat, rows.len())]);
    let mut i: usize = 0;
    while i < tags.len()
        invariant
            i <= tags.len(),
            rows == tag_views(tags@),
            texts(lines@) == before + seq![header(position as nat, rows.len())] + tag_lines(
                rows.take(i as int),
            ),
        decreases tags.len() - i,
    {
        let ghost so_far = lines@;
        lines.push(tag_line_text(&tags[i]));
        assert(texts(lines@) =~= texts(so_far).push(tag_line(rows[i as int])));
        assert(tag_lines(rows.take(i as int + 1)) =~= tag_lines(rows.take(i as int)).push(
            tag_line(rows[i as int]),
        ));
        i += 1;
    }
    assert(rows.take(tags.len() as int) =~= rows);
}

/// The tags of the two seeded images.
#[derive(Clone, Debug, PartialEq, Eq)]
pub struct Listing {
    /// The tags of the first image.
    pub first: Vec<Tag>,
    /// The tags of the second image.
    pub second: Vec<Tag>,
}

/// What a [`Listing`] holds.
pub struct ListingView {
    pub first: Seq<TagView>,
    pub second: Seq<TagView>,
}

impl View for Listing {
    type V = ListingView;

    open spec fn view(&self) -> ListingView {
        ListingView { first: tag_views(self.first@), second: tag_views(self.second@) }
    }
}

impl ListingView {
    /// The lines of the listing: those of the first image, then those of the
    /// second.
    pub open spec fn lines(self) -> Seq<Seq<char>> {
        lines_of(1, self.first) + lines_of(2, self.second)
    }
}

impl Listing {
    /// The listing as lines of text, ready to be printed.
    pub fn lines(&self) -> (r: Vec<String>)
        ensures
            texts(r@) == self@.lines(),
    {
        let mut lines: Vec<String> = Vec::new();
        assert(texts(lines@) =~= Seq::empty());
        push_lines(&mut lines, 1, &self.first);
        push_lines(&mut lines, 2, &self.second);
        lines
    }
}

} // verus!
