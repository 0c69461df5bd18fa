//! The test that the text of a document must pass before the parser takes
//! it.
//!
//! The parser descends once for each element that is open, and on a few
//! values it computes without a check. The test follows the text as the
//! parser does and refuses a document only where the parser would leave the
//! bounds of the machine:
//! - more than `MAX_DEPTH` elements are open at once;
//! - a field among the fields of a register has a bit range whose upper
//!   end is the greatest 32-bit number and whose lower end is zero, so that
//!   its width does not fit into 32 bits;
//! - the ranges of the indexes of the peripherals, clusters, registers and
//!   fields that are marked as arrays have more than `MAX_MEMBERS` members
//!   together, each of which the parser writes out;
//! - the write constraint of a register or of a field holds no element.
//!
//! A document that the parser rejects for its markup passes the test,
//! wherever the test sees the fault.

use vstd::prelude::*;
use crate::markup::{
    cdata_end, cdata_start, closing_end, comment_end, comment_start, end_of_closing, end_of_name,
    end_of_tag, find, find_from, instruction_end, instruction_start, is_local_name, leading,
    leading_text, local_name_is, name_end, stands_at, starts_at, tag_end, FoundTagEnd, TagEnd,
};
use crate::number::{
    index_members, members, number_is_maximum, number_is_zero, overflows, range_overflows,
    reads_maximum, reads_zero, BEYOND,
};
use crate::text::chars_of;

verus! {

/// The greatest number of elements that may be open at once.
pub const MAX_DEPTH: usize = 64;

/// The greatest number of members that the ranges of indexes of a document
/// may have together.
pub const MAX_MEMBERS: u64 = 0x10_0000;

/// What the parser looks for in an element, by its name.
#[derive(Clone, Copy, Debug, PartialEq, Eq, Structural)]
pub enum Kind {
    /// `msb`: the upper end of a bit range.
    UpperEnd,
    /// `lsb`: the lower end of a bit range.
    LowerEnd,
    /// `bitRange`: both ends of a bit range.
    BitRange,
    /// `dimIncrement`: the mark of an array.
    Increment,
    /// `dimIndex`: the indexes of an array.
    Indexes,
    /// `writeConstraint`.
    Constraint,
    /// `field`.
    Field,
    /// `fields`: the element that holds the fields of a register.
    Fields,
    /// `register`.
    Register,
    /// `cluster`.
    Cluster,
    /// `peripheral`.
    Peripheral,
    /// Any other name.
    Other,
}

/// The kind of the element whose name stands in `from..to`.
pub open spec fn kind_of(text: Seq<char>, from: int, to: int) -> Kind {
    if local_name_is(text, from, to, "msb"@) {
        Kind::UpperEnd
    } else if local_name_is(text, from, to, "lsb"@) {
        Kind::LowerEnd
    } else if local_name_is(text, from, to, "bitRange"@) {
        Kind::BitRange
    } else if local_name_is(text, from, to, "dimIncrement"@) {
        Kind::Increment
    } else if local_name_is(text, from, to, "dimIndex"@) {
        Kind::Indexes
    } else if local_name_is(text, from, to, "writeConstraint"@) {
        Kind::Constraint
    } else if local_name_is(text, from, to, "field"@) {
        Kind::Field
    } else if local_name_is(text, from, to, "fields"@) {
        Kind::Fields
    } else if local_name_is(text, from, to, "register"@) {
        Kind::Register
    } else if local_name_is(text, from, to, "cluster"@) {
        Kind::Cluster
    } else if local_name_is(text, from, to, "peripheral"@) {
        Kind::Peripheral
    } else {
        Kind::Other
    }
}

/// Whether the parser looks for a write constraint in an element of
/// `kind`: in a register and in a field.
pub open spec fn takes_constraint(kind: Kind) -> bool {
    kind == Kind::Register || kind == Kind::Field
}

/// Whether the parser takes an element of `kind` for an array where it is
/// marked as one: a peripheral, a cluster, a register and a field.
pub open spec fn takes_indexes(kind: Kind) -> bool {
    kind == Kind::Peripheral || kind == Kind::Cluster || kind == Kind::Register || kind
        == Kind::Field
}

/// Whether the parser reads the text with which an element of `kind`
/// starts.
pub open spec fn has_value(kind: Kind) -> bool {
    kind == Kind::UpperEnd || kind == Kind::LowerEnd || kind == Kind::BitRange || kind
        == Kind::Indexes
}

/// What the test knows of an element that is open: of the element itself,
/// and of the first child of each kind that it has had so far.
#[derive(Clone, Copy, Debug, PartialEq, Eq, Structural)]
pub struct Frame {
    /// The kind of the element.
    pub kind: Kind,
    /// The element is a child of the element that holds the fields of a
    /// register.
    pub in_fields: bool,
    /// The element is the first write constraint of a register or of a
    /// field.
    pub constraint: bool,
    /// The element has a child.
    pub has_child: bool,
    /// The element has a write constraint.
    pub constraint_seen: bool,
    /// The element has a bit range.
    pub range_seen: bool,
    /// Its first bit range has a width beyond 32 bits.
    pub range_overflows: bool,
    /// The element has an upper end.
    pub upper_seen: bool,
    /// Its first upper end is the greatest 32-bit number.
    pub upper_maximum: bool,
    /// The element has a lower end.
    pub lower_seen: bool,
    /// Its first lower end is zero.
    pub lower_zero: bool,
    /// The element has the mark of an array.
    pub increment_seen: bool,
    /// The element has indexes.
    pub indexes_seen: bool,
    /// The number of members of the range of its first indexes.
    pub members: u64,
}

/// The frame of an element of `kind` that opens inside the element of
/// `parent`, before it has had a child.
pub open spec fn fresh_frame(kind: Kind, parent: Frame) -> Frame {
    Frame {
        kind,
        in_fields: parent.kind == Kind::Fields,
        constraint: is_first_constraint(kind, parent),
        has_child: false,
        constraint_seen: false,
        range_seen: false,
        range_overflows: false,
        upper_seen: false,
        upper_maximum: false,
        lower_seen: false,
        lower_zero: false,
        increment_seen: false,
        indexes_seen: false,
        members: 0,
    }
}

/// The frame of the document itself, in which the outermost element opens.
pub open spec fn document_frame() -> Frame {
    Frame {
        kind: Kind::Other,
        in_fields: false,
        constraint: false,
        has_child: false,
        constraint_seen: false,
        range_seen: false,
        range_overflows: false,
        upper_seen: false,
        upper_maximum: false,
        lower_seen: false,
        lower_zero: false,
        increment_seen: false,
        indexes_seen: false,
        members: 0,
    }
}

/// Whether an element of `kind` is the write constraint that the parser
/// takes from the element of `parent`: the first one of a register or of a
/// field.
pub open spec fn is_first_constraint(kind: Kind, parent: Frame) -> bool {
    kind == Kind::Constraint && !parent.constraint_seen && takes_constraint(parent.kind)
}

/// The frame of an element after it has had a child of `kind` that starts
/// with the text `value`. Only the first child of each kind counts, as the
/// parser takes the first.
pub open spec fn with_child(parent: Frame, kind: Kind, value: Seq<u32>) -> Frame {
    let noted = Frame { has_child: true, ..parent };
    match kind {
        Kind::UpperEnd => if parent.upper_seen {
            noted
        } else {
            Frame {
                upper_seen: true,
                upper_maximum: number_is_maximum(value, 0, value.len() as int),
                ..noted
            }
        },
        Kind::LowerEnd => if parent.lower_seen {
            noted
        } else {
            Frame {
                lower_seen: true,
                lower_zero: number_is_zero(value, 0, value.len() as int),
                ..noted
            }
        },
        Kind::BitRange => if parent.range_seen {
            noted
        } else {
            Frame {
                range_seen: true,
                range_overflows: range_overflows(value, 0, value.len() as int),
                ..noted
            }
        },
        Kind::Increment => Frame { increment_seen: true, ..noted },
        Kind::Indexes => if parent.indexes_seen {
            noted
        } else {
            Frame {
                indexes_seen: true,
                members: index_members(value, 0, value.len() as int) as u64,
                ..noted
            }
        },
        Kind::Constraint => Frame { constraint_seen: true, ..noted },
        _ => noted,
    }
}

/// Whether the bit range of the element of `frame` has a width beyond 32
/// bits, be it written as a range or, where there is no range, as an upper
/// and a lower end.
pub open spec fn range_is_unsafe(frame: Frame) -> bool {
    ||| frame.range_seen && frame.range_overflows
    ||| !frame.range_seen && frame.upper_seen && frame.lower_seen && frame.upper_maximum
        && frame.lower_zero
}

/// Whether the parser leaves the bounds of the machine on the element of
/// `frame`, now that it is closed: on a write constraint without a child,
/// and on a field among the fields of a register whose bit range has a
/// width beyond 32 bits.
pub open spec fn frame_is_unsafe(frame: Frame) -> bool {
    ||| frame.constraint && !frame.has_child
    ||| frame.kind == Kind::Field && frame.in_fields && range_is_unsafe(frame)
}

/// The number of members that the parser has written out after the element
/// of `frame`, where it had written `total` before: the indexes of a
/// peripheral, a cluster, a register or a field count where the element is
/// marked as an array.
pub open spec fn members_after(total: u64, frame: Frame) -> u64 {
    if takes_indexes(frame.kind) && frame.increment_seen && frame.indexes_seen {
        if total + frame.members > BEYOND {
            BEYOND
        } else {
            (total + frame.members) as u64
        }
    } else {
        total
    }
}

/// How the test of a document ends.
#[derive(Clone, Copy, Debug, PartialEq, Eq, Structural)]
pub enum Verdict {
    /// The parser may take the document.
    Safe,
    /// The parser would compute beyond its bounds on a value.
    UnsafeValue,
    /// The parser would descend deeper than `MAX_DEPTH`.
    TooDeep,
}

/// The verdict on a document that was followed to its end.
pub open spec fn settled(hazard: bool) -> Verdict {
    if hazard {
        Verdict::UnsafeValue
    } else {
        Verdict::Safe
    }
}

/// What the test makes of one piece of the text.
pub enum Step {
    /// The test goes on at `next`, with the frames of the elements that are
    /// open there.
    Goes { next: int, frames: Seq<Frame>, total: u64, hazard: bool },
    /// The test ends with a verdict.
    Ends(Verdict),
}

/// The step over a comment, a section of character data or a processing
/// instruction that opens at `i` with `opener` characters: to the position
/// behind the first `closer`. The document is safe where there is none, as
/// the parser rejects it.
pub open spec fn passing_step(
    text: Seq<char>,
    i: int,
    opener: int,
    closer: Seq<char>,
    frames: Seq<Frame>,
    total: u64,
    hazard: bool,
) -> Step {
    let end = find_from(text, i + opener, closer);
    if i < end && end + closer.len() <= text.len() {
        Step::Goes { next: end + closer.len(), frames, total, hazard }
    } else {
        Step::Ends(Verdict::Safe)
    }
}

/// The step over the closing tag at `i`: the innermost element is closed
/// and judged. The document is safe where the tag has no end or no element
/// is open, as the parser rejects it.
pub open spec fn closing_step(
    text: Seq<char>,
    i: int,
    frames: Seq<Frame>,
    total: u64,
    hazard: bool,
) -> Step {
    match closing_end(text, i + 2) {
        Some(end) => if end > i && frames.len() > 1 {
            Step::Goes {
                next: end + 1,
                frames: frames.drop_last(),
                total: members_after(total, frames.last()),
                hazard: hazard || frame_is_unsafe(frames.last()) || members_after(
                    total,
                    frames.last(),
                ) > MAX_MEMBERS,
            }
        } else {
            Step::Ends(Verdict::Safe)
        },
        None => Step::Ends(Verdict::Safe),
    }
}

/// The step over the tag at `i` that opens an element: the element is
/// noted in its parent and, unless it is empty, opened. The document is
/// safe where the tag has no end, or where the text with which the element
/// starts holds a reference that the parser rejects.
pub open spec fn opening_step(
    text: Seq<char>,
    i: int,
    frames: Seq<Frame>,
    total: u64,
    hazard: bool,
) -> Step {
    let name = name_end(text, i + 1);
    let kind = kind_of(text, i + 1, name);
    let parent = frames.last();
    match tag_end(text, name, None) {
        TagEnd::Broken => Step::Ends(Verdict::Safe),
        TagEnd::Empty(end) => Step::Goes {
            next: end + 1,
            frames: frames.drop_last().push(with_child(parent, kind, Seq::empty())),
            total,
            hazard: hazard || is_first_constraint(kind, parent),
        },
        TagEnd::Open(end) => if frames.len() > MAX_DEPTH {
            Step::Ends(Verdict::TooDeep)
        } else if has_value(kind) {
            match leading_text(text, end + 1, false, Seq::empty()) {
                Some(value) => Step::Goes {
                    next: end + 1,
                    frames: frames.drop_last().push(with_child(parent, kind, value)).push(
                        fresh_frame(kind, parent),
                    ),
                    total,
                    hazard,
                },
                None => Step::Ends(Verdict::Safe),
            }
        } else {
            Step::Goes {
                next: end + 1,
                frames: frames.drop_last().push(with_child(parent, kind, Seq::empty())).push(
                    fresh_frame(kind, parent),
                ),
                total,
                hazard,
            }
        },
    }
}

/// The step that the test takes at position `i`, which lies between tags.
/// The document is safe at a `<!` that opens neither a comment nor a
/// section of character data, as the parser rejects it.
pub open spec fn step(
    text: Seq<char>,
    i: int,
    frames: Seq<Frame>,
    total: u64,
    hazard: bool,
) -> Step {
    if text[i] != '<' {
        Step::Goes { next: i + 1, frames, total, hazard }
    } else if starts_at(text, i, comment_start()) {
        passing_step(text, i, 4, comment_end(), frames, total, hazard)
    } else if starts_at(text, i, cdata_start()) {
        passing_step(text, i, 9, cdata_end(), frames, total, hazard)
    } else if starts_at(text, i, instruction_start()) {
        passing_step(text, i, 2, instruction_end(), frames, total, hazard)
    } else if i + 1 < text.len() && text[i + 1] == '!' {
        Step::Ends(Verdict::Safe)
    } else if i + 1 < text.len() && text[i + 1] == '/' {
        closing_step(text, i, frames, total, hazard)
    } else {
        opening_step(text, i, frames, total, hazard)
    }
}

/// The verdict on the text from position `i` on, which lies between tags.
///
/// `frames` holds a frame for the document and one for each element that is
/// open, the innermost last; the parser has written out `total` members of
/// index ranges so far; `hazard` says whether it would have left its bounds
/// on a value of an element that is closed already. At the end of the text
/// the document is safe where an element is still open, as the parser
/// rejects it.
pub open spec fn verdict(
    text: Seq<char>,
    i: int,
    frames: Seq<Frame>,
    total: u64,
    hazard: bool,
) -> Verdict
    decreases text.len() - i,
{
    if frames.len() == 0 {
        Verdict::Safe
    } else if i < 0 || i >= text.len() {
        if frames.len() > 1 {
            Verdict::Safe
        } else {
            settled(
                hazard || frame_is_unsafe(frames.last()) || members_after(total, frames.last())
                    > MAX_MEMBERS,
            )
        }
    } else {
        match step(text, i, frames, total, hazard) {
            Step::Goes { next, frames, total, hazard } => if i < next <= text.len() {
                verdict(text, next, frames, total, hazard)
            } else {
                Verdict::Safe
            },
            Step::Ends(outcome) => outcome,
        }
    }
}

/// The verdict on the document `text`.
pub open spec fn document_verdict(text: Seq<char>) -> Verdict {
    verdict(text, 0, seq![document_frame()], 0, false)
}

/// Whether the parser may take the document `text`.
pub open spec fn document_is_safe(text: Seq<char>) -> bool {
    document_verdict(text) == Verdict::Safe
}

/// Why a document is not handed to the parser.
#[derive(Clone, Copy, Debug, PartialEq, Eq, Structural)]
pub enum DocumentError {
    /// The parser would compute beyond its bounds on a bit range, on the
    /// indexes of an array or on a write constraint.
    UnsafeValue,
    /// More than `MAX_DEPTH` elements are open at once.
    TooDeep,
}

/// The sentence that reports `error`.
pub open spec fn refusal_text(error: DocumentError) -> Seq<char> {
    match error {
        DocumentError::UnsafeValue => {
            "a value of the document is beyond the bounds of the parser"@
        },
        DocumentError::TooDeep => "the elements of the document nest too deeply"@,
    }
}

impl DocumentError {
    /// Returns the sentence that reports this error.
    pub fn message(&self) -> (message: String)
        ensures
            message@ == refusal_text(*self),
    {
        match self {
            DocumentError::UnsafeValue => {
                "a value of the document is beyond the bounds of the parser".to_owned()
            },
            DocumentError::TooDeep => "the elements of the document nest too deeply".to_owned(),
        }
    }
}

/// What `check_document` returns for `text`.
pub open spec fn check_outcome(text: Seq<char>) -> Result<(), DocumentError> {
    match document_verdict(text) {
        Verdict::Safe => Ok(()),
        Verdict::UnsafeValue => Err(DocumentError::UnsafeValue),
        Verdict::TooDeep => Err(DocumentError::TooDeep),
    }
}

/// The names that the test looks for.
struct Names {
    upper: Vec<char>,
    lower: Vec<char>,
    range: Vec<char>,
    increment: Vec<char>,
    indexes: Vec<char>,
    constraint: Vec<char>,
    field: Vec<char>,
    fields: Vec<char>,
    register: Vec<char>,
    cluster: Vec<char>,
    peripheral: Vec<char>,
}

impl Names {
    spec fn wf(self) -> bool {
        &&& self.upper@ == "msb"@
        &&& self.lower@ == "lsb"@
        &&& self.range@ == "bitRange"@
        &&& self.increment@ == "dimIncrement"@
        &&& self.indexes@ == "dimIndex"@
        &&& self.constraint@ == "writeConstraint"@
        &&& self.field@ == "field"@
        &&& self.fields@ == "fields"@
        &&& self.register@ == "register"@
        &&& self.cluster@ == "cluster"@
        &&& self.peripheral@ == "peripheral"@
    }

    fn new() -> (names: Names)
        ensures
            names.wf(),
    {
        Names {
            upper: chars_of("msb"),
            lower: chars_of("lsb"),
            range: chars_of("bitRange"),
            increment: chars_of("dimIncrement"),
            indexes: chars_of("dimIndex"),
            constraint: chars_of("writeConstraint"),
            field: chars_of("field"),
            fields: chars_of("fields"),
            register: chars_of("register"),
            cluster: chars_of("cluster"),
            peripheral: chars_of("peripheral"),
        }
    }
}

fn kind(text: &Vec<char>, from: usize, to: usize, names: &Names) -> (kind: Kind)
    requires
        from <= to <= text.len(),
        names.wf(),
    ensures
        kind == kind_of(text@, from as int, to as int),
{
    if is_local_name(text, from, to, &names.upper) {
        Kind::UpperEnd
    } else if is_local_name(text, from, to, &names.lower) {
        Kind::LowerEnd
    } else if is_local_name(text, from, to, &names.range) {
        Kind::BitRange
    } else if is_local_name(text, from, to, &names.increment) {
        Kind::Increment
    } else if is_local_name(text, from, to, &names.indexes) {
        Kind::Indexes
    } else if is_local_name(text, from, to, &names.constraint) {
        Kind::Constraint
    } else if is_local_name(text, from, to, &names.field) {
        Kind::Field
    } else if is_local_name(text, from, to, &names.fields) {
        Kind::Fields
    } else if is_local_name(text, from, to, &names.register) {
        Kind::Register
    } else if is_local_name(text, from, to, &names.cluster) {
        Kind::Cluster
    } else if is_local_name(text, from, to, &names.peripheral) {
        Kind::Peripheral
    } else {
        Kind::Other
    }
}

fn first_constraint(kind: Kind, parent: Frame) -> (first: bool)
    ensures
        first == is_first_constraint(kind, parent),
{
    kind == Kind::Constraint && !parent.constraint_seen && (parent.kind == Kind::Register
        || parent.kind == Kind::Field)
}

fn fresh(kind: Kind, parent: Frame) -> (frame: Frame)
    ensures
        frame == fresh_frame(kind, parent),
        frame.members == 0,
{
    Frame {
        kind,
        in_fields: parent.kind == Kind::Fields,
        constraint: first_constraint(kind, parent),
        has_child: false,
        constraint_seen: false,
        range_seen: false,
        range_overflows: false,
        upper_seen: false,
        upper_maximum: false,
        lower_seen: false,
        lower_zero: false,
        increment_seen: false,
        indexes_seen: false,
        members: 0,
    }
}

fn outermost() -> (frame: Frame)
    ensures
        frame == document_frame(),
{
    Frame {
        kind: Kind::Other,
        in_fields: false,
        constraint: false,
        has_child: false,
        constraint_seen: false,
        range_seen: false,
        range_overflows: false,
        upper_seen: false,
        upper_maximum: false,
        lower_seen: false,
        lower_zero: false,
        increment_seen: false,
        indexes_seen: false,
        members: 0,
    }
}

fn note_child(parent: Frame, kind: Kind, value: &Vec<u32>) -> (frame: Frame)
    ensures
        frame == with_child(parent, kind, value@),
{
    let mut frame = parent;
    frame.has_child = true;
    match kind {
        Kind::UpperEnd => {
            if !parent.upper_seen {
                frame.upper_seen = true;
                frame.upper_maximum = reads_maximum(value, 0, value.len());
            }
        },
        Kind::LowerEnd => {
            if !parent.lower_seen {
                frame.lower_seen = true;
                frame.lower_zero = reads_zero(value, 0, value.len());
            }
        },
        Kind::BitRange => {
            if !parent.range_seen {
                frame.range_seen = true;
                frame.range_overflows = overflows(value, 0, value.len());
            }
        },
        Kind::Increment => {
            frame.increment_seen = true;
        },
        Kind::Indexes => {
            if !parent.indexes_seen {
                frame.indexes_seen = true;
                frame.members = members(value, 0, value.len());
            }
        },
        Kind::Constraint => {
            frame.constraint_seen = true;
        },
        _ => {},
    }
    frame
}

fn is_unsafe(frame: Frame) -> (hazard: bool)
    ensures
        hazard == frame_is_unsafe(frame),
{
    let range = (frame.range_seen && frame.range_overflows) || (!frame.range_seen
        && frame.upper_seen && frame.lower_seen && frame.upper_maximum && frame.lower_zero);
    (frame.constraint && !frame.has_child) || (frame.kind == Kind::Field && frame.in_fields
        && range)
}

fn add_members(total: u64, frame: Frame) -> (sum: u64)
    requires
        total <= BEYOND,
        frame.members <= BEYOND,
    ensures
        sum == members_after(total, frame),
        sum <= BEYOND,
{
    let host = frame.kind == Kind::Peripheral || frame.kind == Kind::Cluster || frame.kind
        == Kind::Register || frame.kind == Kind::Field;
    if host && frame.increment_seen && frame.indexes_seen {
        if total + frame.members > BEYOND {
            BEYOND
        } else {
            total + frame.members
        }
    } else {
        total
    }
}

/// The state of the test between two steps.
struct State {
    frames: Vec<Frame>,
    total: u64,
    hazard: bool,
}

impl State {
    spec fn wf(self) -> bool {
        &&& 1 <= self.frames@.len() <= MAX_DEPTH + 1
        &&& self.total <= BEYOND
        &&& forall|k: int|
            0 <= k < self.frames@.len() ==> (#[trigger] self.frames@[k]).members <= BEYOND
    }
}

/// Where a step of the test leads.
enum Move {
    To(usize),
    End(Verdict),
}

/// What `moved` and the state after it say, as a step.
spec fn step_of(moved: Move, state: State) -> Step {
    match moved {
        Move::To(next) => Step::Goes {
            next: next as int,
            frames: state.frames@,
            total: state.total,
            hazard: state.hazard,
        },
        Move::End(outcome) => Step::Ends(outcome),
    }
}

fn pass(text: &Vec<char>, i: usize, opener: usize, closer: &Vec<char>, state: &State) -> (moved:
    Move)
    requires
        i < text.len(),
        i + opener <= text.len(),
        closer@.len() > 0,
    ensures
        step_of(moved, *state) == passing_step(
            text@,
            i as int,
            opener as int,
            closer@,
            state.frames@,
            state.total,
            state.hazard,
        ),
        moved matches Move::To(next) ==> i < next <= text.len(),
{
    let end = find(text, i + opener, closer);
    if i < end && end < text.len() && closer.len() <= text.len() - end {
        Move::To(end + closer.len())
    } else {
        Move::End(Verdict::Safe)
    }
}

fn close(text: &Vec<char>, i: usize, state: &mut State) -> (moved: Move)
    requires
        i + 1 < text.len(),
        old(state).wf(),
    ensures
        step_of(moved, *final(state)) == closing_step(
            text@,
            i as int,
            old(state).frames@,
            old(state).total,
            old(state).hazard,
        ),
        final(state).wf(),
        moved matches Move::To(next) ==> i < next <= text.len(),
{
    let end = match end_of_closing(text, i + 2) {
        Some(end) => end,
        None => {
            return Move::End(Verdict::Safe);
        },
    };
    if state.frames.len() <= 1 {
        return Move::End(Verdict::Safe);
    }
    let frame = state.frames.pop().unwrap();
    assert(state.frames@ =~= old(state).frames@.drop_last());
    state.total = add_members(state.total, frame);
    state.hazard = state.hazard || is_unsafe(frame) || state.total > MAX_MEMBERS;
    Move::To(end + 1)
}

fn open(text: &Vec<char>, i: usize, state: &mut State, names: &Names) -> (moved: Move)
    requires
        i < text.len(),
        old(state).wf(),
        names.wf(),
    ensures
        step_of(moved, *final(state)) == opening_step(
            text@,
            i as int,
            old(state).frames@,
            old(state).total,
            old(state).hazard,
        ),
        final(state).wf(),
        moved matches Move::To(next) ==> i < next <= text.len(),
{
    let name = end_of_name(text, i + 1);
    let kind = kind(text, i + 1, name, names);
    let end = end_of_tag(text, name);
    let nothing: Vec<u32> = Vec::new();
    let parent = state.frames[state.frames.len() - 1];
    match end {
        FoundTagEnd::Broken => Move::End(Verdict::Safe),
        FoundTagEnd::Empty(end) => {
            let noted = note_child(parent, kind, &nothing);
            state.frames.pop();
            state.frames.push(noted);
            assert(state.frames@ =~= old(state).frames@.drop_last().push(noted));
            state.hazard = state.hazard || first_constraint(kind, parent);
            Move::To(end + 1)
        },
        FoundTagEnd::Open(end) => {
            if state.frames.len() > MAX_DEPTH {
                return Move::End(Verdict::TooDeep);
            }
            let value = if kind == Kind::UpperEnd || kind == Kind::LowerEnd || kind
                == Kind::BitRange || kind == Kind::Indexes {
                match leading(text, end + 1) {
                    Some(value) => value,
                    None => {
                        return Move::End(Verdict::Safe);
                    },
                }
            } else {
                nothing
            };
            let noted = note_child(parent, kind, &value);
            let inner = fresh(kind, parent);
            state.frames.pop();
            state.frames.push(noted);
            state.frames.push(inner);
            assert(state.frames@ =~= old(state).frames@.drop_last().push(noted).push(inner));
            Move::To(end + 1)
        },
    }
}

/// The patterns that open and close what the test passes over.
struct Marks {
    comment: Vec<char>,
    comment_close: Vec<char>,
    cdata: Vec<char>,
    cdata_close: Vec<char>,
    instruction: Vec<char>,
    instruction_close: Vec<char>,
}

impl Marks {
    spec fn wf(self) -> bool {
        &&& self.comment@ == comment_start()
        &&& self.comment_close@ == comment_end()
        &&& self.cdata@ == cdata_start()
        &&& self.cdata_close@ == cdata_end()
        &&& self.instruction@ == instruction_start()
        &&& self.instruction_close@ == instruction_end()
    }

    fn new() -> (marks: Marks)
        ensures
            marks.wf(),
    {
        Marks {
            comment: vec!['<', '!', '-', '-'],
            comment_close: vec!['-', '-', '>'],
            cdata: vec!['<', '!', '[', 'C', 'D', 'A', 'T', 'A', '['],
            cdata_close: vec![']', ']', '>'],
            instruction: vec!['<', '?'],
            instruction_close: vec!['?', '>'],
        }
    }
}

fn advance(text: &Vec<char>, i: usize, state: &mut State, names: &Names, marks: &Marks) -> (moved:
    Move)
    requires
        i < text.len(),
        old(state).wf(),
        names.wf(),
        marks.wf(),
    ensures
        step_of(moved, *final(state)) == step(
            text@,
            i as int,
            old(state).frames@,
            old(state).total,
            old(state).hazard,
        ),
        final(state).wf(),
        moved matches Move::To(next) ==> i < next <= text.len(),
{
    if text[i] != '<' {
        Move::To(i + 1)
    } else if stands_at(text, i, &marks.comment) {
        pass(text, i, 4, &marks.comment_close, state)
    } else if stands_at(text, i, &marks.cdata) {
        pass(text, i, 9, &marks.cdata_close, state)
    } else if stands_at(text, i, &marks.instruction) {
        pass(text, i, 2, &marks.instruction_close, state)
    } else if i + 1 < text.len() && text[i + 1] == '!' {
        Move::End(Verdict::Safe)
    } else if i + 1 < text.len() && text[i + 1] == '/' {
        close(text, i, state)
    } else {
        open(text, i, state, names)
    }
}

/// Follows the text of a document and gives the verdict on it.
fn judge(text: &Vec<char>) -> (outcome: Verdict)
    ensures
        outcome == document_verdict(text@),
{
    let names = Names::new();
    let marks = Marks::new();
    let mut frames: Vec<Frame> = Vec::new();
    frames.push(outermost());
    assert(frames@ =~= seq![document_frame()]);
    let mut state = State { frames, total: 0, hazard: false };
    let mut i: usize = 0;
    while i < text.len()
        invariant
            0 <= i <= text.len(),
            names.wf(),
            marks.wf(),
            state.wf(),
            document_verdict(text@) == verdict(
                text@,
                i as int,
                state.frames@,
                state.total,
                state.hazard,
            ),
        decreases text.len() - i,
    {
        match advance(text, i, &mut state, &names, &marks) {
            Move::To(next) => {
                i = next;
            },
            Move::End(outcome) => {
                return outcome;
            },
        }
    }
    if state.frames.len() > 1 {
        Verdict::Safe
    } else {
        let frame = state.frames[0];
        assert(frame == state.frames@.last());
        let sum = add_members(state.total, frame);
        if state.hazard || is_unsafe(frame) || sum > MAX_MEMBERS {
            Verdict::UnsafeValue
        } else {
            Verdict::Safe
        }
    }
}

/// Tests whether the parser may take the document `xml`.
pub fn check_document(xml: &str) -> (outcome: Result<(), DocumentError>)
    ensures
        outcome == check_outcome(xml@),
        outcome is Ok <==> document_is_safe(xml@),
{
    let text = chars_of(xml);
    match judge(&text) {
        Verdict::Safe => Ok(()),
        Verdict::UnsafeValue => Err(DocumentError::UnsafeValue),
        Verdict::TooDeep => Err(DocumentError::TooDeep),
    }
}

} // verus!
