//! The feedback of an analysis: the suggested improvements and the parts
//! found unclear, each in a box of its own.

use crate::ui::layout::{clamp_u16, least, limit, sat_add, sat_sub, Rect};
use vstd::prelude::*;

verus! {

/// The feedback panel of the main screen.
#[derive(Debug, Clone, Copy)]
pub struct Feedback<'a> {
    improvements: &'a [String],
    unclear_parts: &'a [String],
}

/// The columns left free on either side of a box's text.
pub open spec fn padding_x() -> int {
    1
}

/// The rows left free above and below a box's text.
pub open spec fn padding_y() -> int {
    1
}

/// The columns of a box that hold no text: borders, padding and bullet.
pub open spec fn box_overhead() -> int {
    4 + 2 * padding_x() + 2
}

/// The number of bytes that a text takes in UTF-8, as `str::len` gives it.
pub open spec fn byte_len(text: Seq<char>) -> usize {
    vstd::utf8::encode_utf8(text).len() as usize
}

/// The rows that a text of `len` bytes is taken to fill in a column of
/// `inner_width` cells: the bytes over the width, rounded up, and one row
/// at least.
pub open spec fn wrapped_rows(len: nat, inner_width: nat) -> nat {
    if inner_width == 0 || len == 0 {
        1
    } else {
        ((len + inner_width - 1) / inner_width as int) as nat
    }
}

/// The rows that the first `upto` of `items` are taken to fill.
pub open spec fn total_rows(items: Seq<Seq<char>>, inner_width: nat, upto: nat) -> nat
    decreases upto,
{
    if upto == 0 {
        0
    } else {
        total_rows(items, inner_width, (upto - 1) as nat) + wrapped_rows(
            byte_len(items[upto - 1]) as nat,
            inner_width,
        )
    }
}

/// The rows that a box with `items` takes in a panel of `width` columns:
/// none where there are no items, else the rows of the items, with a
/// border and padding above and below. The sum stops at the largest extent.
pub open spec fn section_height(items: Seq<Seq<char>>, width: u16) -> int {
    if items.len() == 0 {
        0
    } else {
        least(
            total_rows(items, sat_sub(width as int, box_overhead()) as nat, items.len()) + 2 + 2
                * padding_y(),
            limit(),
        )
    }
}

/// The rows that a text of `len` bytes is taken to fill in a column of
/// `inner_width` cells, stopped at the largest extent.
pub fn rows_of(len: usize, inner_width: u16) -> (rows: u16)
    ensures
        rows == least(wrapped_rows(len as nat, inner_width as nat) as int, limit()),
        rows >= 1,
{
    if inner_width == 0 || len == 0 {
        1
    } else {
        let width: usize = inner_width as usize;
        let whole: usize = len / width;
        let rest: usize = len % width;
        assert((len + width - 1) / width as int == whole + if rest > 0 {
            1int
        } else {
            0int
        }) by (nonlinear_arith)
            requires
                width > 0,
                whole == len / width,
                rest == len % width,
        ;
        assert(whole >= 1 || rest > 0) by (nonlinear_arith)
            requires
                len > 0,
                width > 0,
                whole == len / width,
                rest == len % width,
        ;
        if rest > 0 {
            if whole >= 0xffff {
                0xffff
            } else {
                (whole + 1) as u16
            }
        } else {
            clamp_u16(whole)
        }
    }
}

impl<'a> Feedback<'a> {
    pub closed spec fn spec_improvements(&self) -> Seq<Seq<char>> {
        self.improvements.deep_view()
    }

    pub closed spec fn spec_unclear_parts(&self) -> Seq<Seq<char>> {
        self.unclear_parts.deep_view()
    }

    pub fn new(improvements: &'a [String], unclear_parts: &'a [String]) -> (feedback: Feedback<'a>)
        ensures
            feedback.spec_improvements() == improvements.deep_view(),
            feedback.spec_unclear_parts() == unclear_parts.deep_view(),
    {
        Feedback { improvements, unclear_parts }
    }

    /// The suggested improvements.
    pub fn improvements(&self) -> (items: &'a [String])
        ensures
            items.deep_view() == self.spec_improvements(),
    {
        self.improvements
    }

    /// The parts found unclear.
    pub fn unclear_parts(&self) -> (items: &'a [String])
        ensures
            items.deep_view() == self.spec_unclear_parts(),
    {
        self.unclear_parts
    }

    /// The area of a box's text within the box's inner area.
    pub fn with_padding(area: Rect) -> (padded: Rect)
        ensures
            padded == area.spec_inset(1, 1),
    {
        area.inset(1, 1)
    }

    /// The rows that a box with `items` takes in a panel of `width` columns.
    pub fn calculate_section_height(items: &[String], width: u16) -> (rows: u16)
        ensures
            rows == section_height(items.deep_view(), width),
    {
        if items.len() == 0 {
            return 0;
        }
        let inner_width = width.saturating_sub(8);
        let mut total: u16 = 0;
        let mut i: usize = 0;
        while i < items.len()
            invariant
                i <= items.len(),
                inner_width == sat_sub(width as int, box_overhead()),
                total == least(
                    total_rows(items.deep_view(), inner_width as nat, i as nat) as int,
                    limit(),
                ),
            decreases items.len() - i,
        {
            let rows = rows_of(items[i].as_str().len(), inner_width);
            assert(items.deep_view()[i as int] == items@[i as int]@);
            assert(total_rows(items.deep_view(), inner_width as nat, (i + 1) as nat) == total_rows(
                items.deep_view(),
                inner_width as nat,
                i as nat,
            ) + wrapped_rows(byte_len(items@[i as int]@) as nat, inner_width as nat));
            total = total.saturating_add(rows);
            i += 1;
        }
        total.saturating_add(4)
    }

    /// The rows that the panel takes in `width` columns: those of its two
    /// boxes, or four for the notice that there is no feedback.
    pub open spec fn spec_height(&self, width: u16) -> int {
        let improvements = section_height(self.spec_improvements(), width);
        let unclear = section_height(self.spec_unclear_parts(), width);
        if improvements == 0 && unclear == 0 {
            4
        } else {
            sat_add(improvements, unclear)
        }
    }

    pub fn calculate_height(&self, width: u16) -> (rows: u16)
        ensures
            rows == self.spec_height(width),
            rows >= 4,
    {
        let improvements = Self::calculate_section_height(self.improvements, width);
        let unclear = Self::calculate_section_height(self.unclear_parts, width);
        if improvements == 0 && unclear == 0 {
            4
        } else {
            proof {
                lemma_section_height(self.spec_improvements(), width);
                lemma_section_height(self.spec_unclear_parts(), width);
            }
            improvements.saturating_add(unclear)
        }
    }
}

/// A box is absent or takes five rows at least: borders, padding, and a
/// row for each of its items.
pub proof fn lemma_section_height(items: Seq<Seq<char>>, width: u16)
    ensures
        items.len() == 0 <==> section_height(items, width) == 0,
        items.len() > 0 ==> section_height(items, width) >= 5,
        section_height(items, width) <= limit(),
{
    if items.len() > 0 {
        lemma_total_rows(items, sat_sub(width as int, box_overhead()) as nat, items.len());
    }
}

/// Every item takes a row at least.
pub proof fn lemma_total_rows(items: Seq<Seq<char>>, inner_width: nat, upto: nat)
    ensures
        total_rows(items, inner_width, upto) >= upto,
    decreases upto,
{
    if upto > 0 {
        lemma_total_rows(items, inner_width, (upto - 1) as nat);
        let len = byte_len(items[upto - 1]) as nat;
        if inner_width > 0 && len > 0 {
            assert((len + inner_width - 1) / inner_width as int >= 1) by (nonlinear_arith)
                requires
                    len > 0,
                    inner_width > 0,
            ;
        }
    }
}

} // verus!
