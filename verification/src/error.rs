//! Errors of the numerical-integration routines, and the shape checks that raise them.
use vstd::prelude::*;
use vstd::string::*;

verus! {

/// Error raised by the numerical-integration routines.
///
/// `ShapeMismatch` carries the two shapes that were compared (both empty when a
/// condition failed) and a message; `Message` carries a message alone.
#[derive(Debug, Clone)]
pub enum NIError {
    ShapeMismatch { expected: Vec<usize>, actual: Vec<usize>, msg: String },
    Message(String),
}

/// The mathematical value of an [`NIError`].
pub enum NIErrorView {
    ShapeMismatch { expected: Seq<usize>, actual: Seq<usize>, msg: Seq<char> },
    Message(Seq<char>),
}

impl View for NIError {
    type V = NIErrorView;

    open spec fn view(&self) -> NIErrorView {
        match self {
            NIError::ShapeMismatch { expected, actual, msg } => NIErrorView::ShapeMismatch {
                expected: expected@,
                actual: actual@,
                msg: msg@,
            },
            NIError::Message(m) => NIErrorView::Message(m@),
        }
    }
}

/// A result with its error taken by its view.
pub open spec fn res_view<T>(r: Result<T, NIError>) -> Result<T, NIErrorView> {
    match r {
        Ok(v) => Ok(v),
        Err(e) => Err(e@),
    }
}

/// The message of a failed equality check: the caller's message followed by the
/// source text of the two compared expressions.
pub open spec fn mismatch_msg(msg: Seq<char>, expected_src: Seq<char>, actual_src: Seq<char>) -> Seq<char> {
    msg + " (expected: "@ + expected_src + ", actual: "@ + actual_src + ")"@
}

/// The message of a failed condition: the caller's message followed by the
/// source text of the condition.
pub open spec fn condition_msg(msg: Seq<char>, cond_src: Seq<char>) -> Seq<char> {
    msg + " (condition: "@ + cond_src + ")"@
}

/// The outcome of comparing two shapes: `None` when they are equal, else the error.
pub open spec fn eq_check(
    expected: Seq<usize>,
    actual: Seq<usize>,
    msg: Seq<char>,
    expected_src: Seq<char>,
    actual_src: Seq<char>,
) -> Option<NIErrorView> {
    if expected == actual {
        None
    } else {
        Some(
            NIErrorView::ShapeMismatch {
                expected,
                actual,
                msg: mismatch_msg(msg, expected_src, actual_src),
            },
        )
    }
}

/// The outcome of checking a condition: `None` when it holds, else the error.
pub open spec fn cond_check(cond: bool, msg: Seq<char>, cond_src: Seq<char>) -> Option<NIErrorView> {
    if cond {
        None
    } else {
        Some(
            NIErrorView::ShapeMismatch {
                expected: Seq::empty(),
                actual: Seq::empty(),
                msg: condition_msg(msg, cond_src),
            },
        )
    }
}

/// The first failure of two checks made in order.
pub open spec fn first_failure(a: Option<NIErrorView>, b: Option<NIErrorView>) -> Option<NIErrorView> {
    if a is Some {
        a
    } else {
        b
    }
}

/// The result that a sequence of checks yields: `Ok` when none failed.
pub open spec fn checked(o: Option<NIErrorView>) -> Result<(), NIErrorView> {
    match o {
        Some(e) => Err(e),
        None => Ok(()),
    }
}

/// A message error, the form every non-shape error of the library takes.
pub open spec fn message_error(msg: Seq<char>) -> NIErrorView {
    NIErrorView::Message(msg)
}

/// Makes a message error from a text.
pub fn ni_error(msg: &str) -> (e: NIError)
    ensures
        e@ == message_error(msg@),
{
    NIError::Message(String::from_str(msg))
}

/// Whether two shapes are equal, element by element.
pub fn shape_eq(a: &[usize], b: &[usize]) -> (r: bool)
    ensures
        r == (a@ == b@),
{
    if a.len() != b.len() {
        return false;
    }
    let mut i: usize = 0;
    while i < a.len()
        invariant
            a.len() == b.len(),
            0 <= i <= a.len(),
            forall|j: int| 0 <= j < i ==> a@[j] == b@[j],
        decreases a.len() - i,
    {
        if a[i] != b[i] {
            return false;
        }
        i = i + 1;
    }
    assert(a@ =~= b@);
    true
}

/// Compares two shapes; on a difference, the error carries both shapes and a
/// message naming the two compared expressions.
pub fn ni_check_shape_eq(
    expected: Vec<usize>,
    actual: Vec<usize>,
    msg: &str,
    expected_src: &str,
    actual_src: &str,
) -> (r: Result<(), NIError>)
    ensures
        res_view(r) == checked(eq_check(expected@, actual@, msg@, expected_src@, actual_src@)),
{
    if shape_eq(expected.as_slice(), actual.as_slice()) {
        Ok(())
    } else {
        let text = String::from_str(msg).concat(" (expected: ").concat(expected_src).concat(
            ", actual: ",
        ).concat(actual_src).concat(")");
        Err(NIError::ShapeMismatch { expected, actual, msg: text })
    }
}

/// Checks a condition; when it fails, the error has empty shapes and a message
/// naming the condition.
pub fn ni_check_shape_cond(cond: bool, msg: &str, cond_src: &str) -> (r: Result<(), NIError>)
    ensures
        res_view(r) == checked(cond_check(cond, msg@, cond_src@)),
{
    if cond {
        Ok(())
    } else {
        let text = String::from_str(msg).concat(" (condition: ").concat(cond_src).concat(")");
        Err(NIError::ShapeMismatch { expected: Vec::new(), actual: Vec::new(), msg: text })
    }
}

/// Values that can be read as a shape (a list of dimensions).
pub trait NIIntoUsizeVec: Sized {
    /// The dimensions that the value stands for.
    spec fn usize_seq(&self) -> Seq<usize>;

    /// The dimensions as a vector.
    fn into_usize_vec(self) -> (v: Vec<usize>)
        ensures
            v@ == self.usize_seq(),
    ;
}

fn copy_dims(s: &[usize]) -> (v: Vec<usize>)
    ensures
        v@ == s@,
{
    let mut v: Vec<usize> = Vec::new();
    let mut i: usize = 0;
    while i < s.len()
        invariant
            0 <= i <= s.len(),
            v@ == s@.subrange(0, i as int),
        decreases s.len() - i,
    {
        v.push(s[i]);
        i = i + 1;
    }
    assert(v@ =~= s@);
    v
}

impl NIIntoUsizeVec for usize {
    open spec fn usize_seq(&self) -> Seq<usize> {
        seq![*self]
    }

    fn into_usize_vec(self) -> (v: Vec<usize>) {
        let mut v: Vec<usize> = Vec::new();
        v.push(self);
        assert(v@ =~= seq![self]);
        v
    }
}

impl<'a> NIIntoUsizeVec for &'a [usize] {
    open spec fn usize_seq(&self) -> Seq<usize> {
        (**self)@
    }

    fn into_usize_vec(self) -> (v: Vec<usize>) {
        copy_dims(self)
    }
}

impl<const N: usize> NIIntoUsizeVec for [usize; N] {
    open spec fn usize_seq(&self) -> Seq<usize> {
        self@
    }

    fn into_usize_vec(self) -> (v: Vec<usize>) {
        copy_dims(self.as_slice())
    }
}

impl NIIntoUsizeVec for Vec<usize> {
    open spec fn usize_seq(&self) -> Seq<usize> {
        self@
    }

    fn into_usize_vec(self) -> (v: Vec<usize>) {
        self
    }
}

} // verus!
