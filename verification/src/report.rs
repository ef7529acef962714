//! Lines and reports whose real numbers are still to be written out.
//!
//! Everything the control system prints or logs is put together here as a
//! [`Report`]: a sequence of pieces of finished text and of numbers. A number
//! is a [`Quantity`] - the integers it is computed from and how - together with
//! the field it goes into. Floating-point arithmetic is left to whoever prints
//! the report.

use vstd::prelude::*;

use crate::clock::Duration;
use crate::text;
use crate::text::{align_left, align_right, decimal};

verus! {

/// A double-precision floating-point number, held by its IEEE 754 bit pattern.
#[derive(Debug, Clone, Copy, PartialEq, Eq, Structural, Hash)]
pub struct Float64 {
    pub bits: u64,
}

impl Float64 {
    /// The number with the bit pattern `bits`.
    pub fn from_bits(bits: u64) -> (f: Float64)
        ensures
            f.bits == bits,
    {
        Float64 { bits }
    }

    /// The positive zero.
    pub fn zero() -> (f: Float64)
        ensures
            f.bits == 0,
            !f.not_a_number(),
    {
        Float64 { bits: 0 }
    }

    /// The quiet not-a-number.
    pub fn nan() -> (f: Float64)
        ensures
            f.bits == 0x7ff8_0000_0000_0000u64,
            f.not_a_number(),
    {
        Float64 { bits: 0x7ff8_0000_0000_0000 }
    }

    /// Whether the exponent is all ones and the fraction is not zero. The sign,
    /// which is the topmost bit, does not matter.
    pub open spec fn not_a_number(self) -> bool {
        self.bits % 0x8000_0000_0000_0000u64 > 0x7ff0_0000_0000_0000u64
    }

    /// Whether this is not a number.
    pub fn is_nan(&self) -> (b: bool)
        ensures
            b == self.not_a_number(),
    {
        self.bits % 0x8000_0000_0000_0000 > 0x7ff0_0000_0000_0000
    }
}

/// Not a number is what IEEE 754 says it is: all bits of the exponent are set, and
/// some bit of the fraction is; the sign does not matter.
pub proof fn law_not_a_number(f: Float64)
    ensures
        f.not_a_number() <==> {
            &&& f.bits & 0x7ff0_0000_0000_0000u64 == 0x7ff0_0000_0000_0000u64
            &&& f.bits & 0x000f_ffff_ffff_ffffu64 != 0
        },
{
    let b = f.bits;
    assert((b % 0x8000_0000_0000_0000u64 > 0x7ff0_0000_0000_0000u64) == (b
        & 0x7ff0_0000_0000_0000u64 == 0x7ff0_0000_0000_0000u64 && b & 0x000f_ffff_ffff_ffffu64
        != 0)) by (bit_vector);
}

/// A real number, given by what it is computed from.
#[derive(Debug, Clone, Copy, PartialEq, Eq, Structural)]
pub enum Quantity {
    /// A whole number.
    Whole(u64),
    /// A floating-point number.
    Float(Float64),
    /// `num / den`.
    Ratio { num: u64, den: u64 },
    /// `sum / count`, and zero where there is nothing to average.
    Mean { sum: u128, count: u64 },
    /// `total / count`, and zero where there is nothing to average.
    SignedMean { total: i64, count: u64 },
    /// The population standard deviation of `count` numbers with the given sum.
    /// The sum of their squares is `sq_high * 2^128 + sq_low`.
    StdDev { count: u64, sum: u128, sq_high: u64, sq_low: u128 },
    /// `part` as a percentage of `whole`.
    Percent { part: u64, whole: u64 },
    /// What `part` leaves of `whole`, as a percentage.
    PercentLeft { part: u64, whole: u64 },
    /// The share `1 - part / whole`, as a percentage.
    PercentWithout { part: u64, whole: u64 },
    /// A span in seconds.
    Seconds(Duration),
    /// The utilisation up to which `tasks` tasks are schedulable under
    /// rate-monotonic priorities: `tasks * (2^(1 / tasks) - 1)`.
    RateMonotonicBound { tasks: u64 },
    /// How many of `count` things happened per second of `span`.
    PerSecond { count: u64, span: Duration },
}

/// The field a number is written into: right-aligned in `width` characters,
/// with `places` digits behind the point.
#[derive(Debug, Clone, Copy, PartialEq, Eq, Structural)]
pub struct Field {
    pub width: usize,
    pub places: usize,
}

/// A piece of a report.
#[derive(Debug)]
pub enum Piece {
    Text(String),
    Number(Quantity, Field),
    /// The population standard deviation of the samples.
    Spread(Vec<u64>, Field),
}

/// What a [`Piece`] says.
pub enum PieceView {
    Text(Seq<char>),
    Number(Quantity, Field),
    Spread(Seq<u64>, Field),
}

impl View for Piece {
    type V = PieceView;

    open spec fn view(&self) -> PieceView {
        match *self {
            Piece::Text(s) => PieceView::Text(s@),
            Piece::Number(q, f) => PieceView::Number(q, f),
            Piece::Spread(v, f) => PieceView::Spread(v@, f),
        }
    }
}

/// A line or a whole report: pieces that are printed one behind the other.
#[derive(Debug)]
pub struct Report {
    pub pieces: Vec<Piece>,
}

/// What a report says, piece by piece.
#[verifier::ext_equal]
pub struct Layout {
    pub pieces: Seq<PieceView>,
}

impl Layout {
    /// Nothing.
    pub open spec fn empty() -> Layout {
        Layout { pieces: Seq::empty() }
    }

    /// This, followed by `piece`.
    pub open spec fn with(self, piece: PieceView) -> Layout {
        Layout { pieces: self.pieces.push(piece) }
    }

    /// This, followed by the text `s`.
    pub open spec fn text(self, s: Seq<char>) -> Layout {
        self.with(PieceView::Text(s))
    }

    /// This, followed by `s`, left-aligned in `width` characters.
    pub open spec fn text_left(self, s: Seq<char>, width: nat) -> Layout {
        self.text(text::pad_right(s, width))
    }

    /// This, followed by `n` in decimal.
    pub open spec fn count(self, n: nat) -> Layout {
        self.text(text::dec(n))
    }

    /// This, followed by `n` in decimal, right-aligned in `width` characters.
    pub open spec fn count_right(self, n: nat, width: nat) -> Layout {
        self.text(text::pad_left(text::dec(n), width, ' '))
    }

    /// This, followed by `n` in decimal, left-aligned in `width` characters.
    pub open spec fn count_left(self, n: nat, width: nat) -> Layout {
        self.text(text::pad_right(text::dec(n), width))
    }

    /// This, followed by `q`, right-aligned in `width` characters, with
    /// `places` digits behind the point.
    pub open spec fn number(self, q: Quantity, width: usize, places: usize) -> Layout {
        self.with(PieceView::Number(q, Field { width, places }))
    }

    /// This, followed by the standard deviation of `samples`, written as a
    /// number is.
    pub open spec fn spread(self, samples: Seq<u64>, width: usize, places: usize) -> Layout {
        self.with(PieceView::Spread(samples, Field { width, places }))
    }

    /// This, followed by `other`.
    pub open spec fn then_all(self, other: Layout) -> Layout {
        Layout { pieces: self.pieces + other.pieces }
    }
}

impl Layout {
    /// Whether `piece` is the piece that stands `k` places behind the text `label`.
    pub open spec fn shows(self, label: Seq<char>, k: int, piece: PieceView) -> bool {
        exists|i: int|
            0 <= i && 0 <= i + k < self.pieces.len() && #[trigger] self.pieces[i]
                == PieceView::Text(label) && self.pieces[i + k] == piece
    }

    /// Whether the number `n` is what stands behind the text `label`.
    pub open spec fn shows_count(self, label: Seq<char>, n: nat) -> bool {
        self.shows(label, 1, PieceView::Text(text::dec(n)))
    }

    /// Whether the quantity `q`, in a field of the given form, is what stands behind
    /// the text `label`.
    pub open spec fn shows_number(
        self,
        label: Seq<char>,
        q: Quantity,
        width: usize,
        places: usize,
    ) -> bool {
        self.shows(label, 1, PieceView::Number(q, Field { width, places }))
    }
}

impl View for Report {
    type V = Layout;

    open spec fn view(&self) -> Layout {
        Layout { pieces: Seq::new(self.pieces@.len(), |i: int| self.pieces@[i]@) }
    }
}

/// What each of several reports says.
pub open spec fn layouts(reports: Seq<Report>) -> Seq<Layout> {
    Seq::new(reports.len(), |i: int| reports[i]@)
}

impl Report {
    /// A report that says nothing yet.
    pub fn new() -> (r: Report)
        ensures
            r@ == Layout::empty(),
    {
        let r: Report = Report { pieces: Vec::new() };
        assert(r@ =~= Layout::empty());
        r
    }

    fn add_piece(&mut self, piece: Piece)
        ensures
            final(self)@ == old(self)@.with(piece@),
    {
        self.pieces.push(piece);
        assert(self@ =~= old(self)@.with(piece@));
    }

    /// Adds the text `s`.
    pub fn text(&mut self, s: &str)
        ensures
            final(self)@ == old(self)@.text(s@),
    {
        self.add_piece(Piece::Text(s.to_string()));
    }

    /// Adds `n` in decimal.
    pub fn count(&mut self, n: u64)
        ensures
            final(self)@ == old(self)@.count(n as nat),
    {
        self.add_piece(Piece::Text(decimal(n)));
    }

    /// Adds `n` in decimal, right-aligned in `width` characters.
    pub fn count_right(&mut self, n: u64, width: usize)
        ensures
            final(self)@ == old(self)@.count_right(n as nat, width as nat),
    {
        let d: String = decimal(n);
        self.add_piece(Piece::Text(align_right(d.as_str(), width)));
    }

    /// Adds `n` in decimal, left-aligned in `width` characters.
    pub fn count_left(&mut self, n: u64, width: usize)
        ensures
            final(self)@ == old(self)@.count_left(n as nat, width as nat),
    {
        let d: String = decimal(n);
        self.add_piece(Piece::Text(align_left(d.as_str(), width)));
    }

    /// Adds `s`, left-aligned in `width` characters.
    pub fn text_left(&mut self, s: &str, width: usize)
        ensures
            final(self)@ == old(self)@.text_left(s@, width as nat),
    {
        self.add_piece(Piece::Text(align_left(s, width)));
    }

    /// Adds `q`, right-aligned in `width` characters, with `places` digits
    /// behind the point.
    pub fn number(&mut self, q: Quantity, width: usize, places: usize)
        ensures
            final(self)@ == old(self)@.number(q, width, places),
    {
        self.add_piece(Piece::Number(q, Field { width, places }));
    }

    /// Adds the population standard deviation of `samples`, written as
    /// [`Report::number`] writes a number.
    pub fn spread(&mut self, samples: Vec<u64>, width: usize, places: usize)
        ensures
            final(self)@ == old(self)@.spread(samples@, width, places),
    {
        self.add_piece(Piece::Spread(samples, Field { width, places }));
    }

    /// Adds all that `other` says.
    pub fn append(&mut self, other: Report)
        ensures
            final(self)@ == old(self)@.then_all(other@),
    {
        let mut rest: Vec<Piece> = other.pieces;
        self.pieces.append(&mut rest);
        assert(self@ =~= old(self)@.then_all(other@));
    }

    /// A report that says the same.
    pub fn duplicate(&self) -> (r: Report)
        ensures
            r@ == self@,
    {
        let len: usize = self.pieces.len();
        let mut r: Report = Report::new();
        let mut i: usize = 0;
        while i < len
            invariant
                i <= len,
                len == self.pieces@.len(),
                r@.pieces == self@.pieces.take(i as int),
            decreases len - i,
        {
            let piece: Piece = match &self.pieces[i] {
                Piece::Text(s) => Piece::Text(s.as_str().to_string()),
                Piece::Number(q, f) => Piece::Number(*q, *f),
                Piece::Spread(v, f) => Piece::Spread(v.clone(), *f),
            };
            assert(piece@ == self.pieces@[i as int]@);
            r.add_piece(piece);
            assert(self@.pieces.take(i + 1) =~= self@.pieces.take(i as int).push(piece@));
            i = i + 1;
        }
        assert(self@.pieces.take(len as int) =~= self@.pieces);
        r
    }
}

impl Layout {
    /// Whether `part` stands in this as a whole, in one piece.
    pub open spec fn holds(self, part: Layout) -> bool {
        exists|before: Layout, behind: Layout|
            self.pieces == #[trigger] (before.pieces + part.pieces + behind.pieces)
    }
}

/// What a report holds, it holds still when something is added, and it holds what is
/// added.
pub proof fn lemma_holds(l: Layout, more: Layout)
    ensures
        l.then_all(more).holds(more),
        forall|part: Layout| #[trigger] l.holds(part) ==> l.then_all(more).holds(part),
{
    let sum = l.then_all(more);
    assert(sum.pieces =~= l.pieces + more.pieces + Layout::empty().pieces);
    assert forall|part: Layout| #[trigger] l.holds(part) implies sum.holds(part) by {
        let (before, behind) = choose|before: Layout, behind: Layout|
            l.pieces == #[trigger] (before.pieces + part.pieces + behind.pieces);
        let rest = Layout { pieces: behind.pieces + more.pieces };
        assert(sum.pieces =~= before.pieces + part.pieces + rest.pieces);
    }
}

/// What a report holds, it holds still when a piece is added.
pub proof fn lemma_holds_piece(l: Layout, piece: PieceView)
    ensures
        forall|part: Layout| #[trigger] l.holds(part) ==> l.with(piece).holds(part),
{
    let more = Layout::empty().with(piece);
    assert(l.with(piece) =~= l.then_all(more));
    lemma_holds(l, more);
}

/// A label that is added with a piece behind it shows that piece, and what a report
/// shows, it shows still.
pub proof fn lemma_shows_added(l: Layout, label: Seq<char>, added: PieceView)
    ensures
        l.text(label).with(added).shows(label, 1, added),
        forall|t: Seq<char>, p: PieceView| #[trigger]
            l.shows(t, 1, p) ==> l.text(label).with(added).shows(t, 1, p),
{
    let sum = l.text(label).with(added);
    let n = l.pieces.len() as int;
    assert(sum.pieces[n] == PieceView::Text(label));
    assert(sum.pieces[n + 1] == added);
    assert forall|t: Seq<char>, p: PieceView| #[trigger] l.shows(t, 1, p) implies sum.shows(
        t,
        1,
        p,
    ) by {
        let i = choose|i: int|
            0 <= i && 0 <= i + 1 < l.pieces.len() && #[trigger] l.pieces[i] == PieceView::Text(t)
                && l.pieces[i + 1] == p;
        assert(sum.pieces[i] == l.pieces[i]);
        assert(sum.pieces[i + 1] == l.pieces[i + 1]);
    }
}

/// What a report shows, it shows still when something is added.
pub proof fn lemma_shows_kept(l: Layout, more: Layout)
    ensures
        forall|t: Seq<char>, p: PieceView| #[trigger]
            l.shows(t, 1, p) ==> l.then_all(more).shows(t, 1, p),
{
    let sum = l.then_all(more);
    assert forall|t: Seq<char>, p: PieceView| #[trigger] l.shows(t, 1, p) implies sum.shows(
        t,
        1,
        p,
    ) by {
        let i = choose|i: int|
            0 <= i && 0 <= i + 1 < l.pieces.len() && #[trigger] l.pieces[i] == PieceView::Text(t)
                && l.pieces[i + 1] == p;
        assert(sum.pieces[i] == l.pieces[i]);
        assert(sum.pieces[i + 1] == l.pieces[i + 1]);
    }
}

/// What a report shows, it shows still when a text is added.
pub proof fn lemma_shows_kept_text(l: Layout, s: Seq<char>)
    ensures
        forall|t: Seq<char>, p: PieceView| #[trigger]
            l.shows(t, 1, p) ==> l.text(s).shows(t, 1, p),
{
    let more = Layout::empty().text(s);
    assert(l.text(s) =~= l.then_all(more));
    lemma_shows_kept(l, more);
}

} // verus!
