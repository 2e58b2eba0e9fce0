//! The exchange between an operation and the native driver.

use vstd::prelude::*;
use crate::api::cl::call::ClCall;
use crate::api::gl::call::GlCall;
use crate::api::surface::SurfaceCall;
use crate::error::{Error, ErrorView};

verus! {

/// One native call.
#[derive(Clone, Copy, Debug)]
pub enum Call {
    /// A call of the OpenCL API.
    Cl(ClCall),
    /// A call of the OpenGL API.
    Gl(GlCall),
    /// A call of the platform's shared-surface allocator.
    Surface(SurfaceCall),
}

/// A native call together with the data that it reads.
#[derive(Debug)]
pub struct Request {
    /// The entry point and its plain arguments.
    pub call: Call,
    /// The events that the call waits for, in the order given; empty for the
    /// calls that take no wait list.
    pub wait_list: Vec<usize>,
    /// The bytes that the call reads from the host: a source text or the
    /// initial contents of a buffer; empty for the calls that read none.
    pub bytes: Vec<u8>,
}

/// A `Request` with its data as sequences.
pub struct RequestView {
    pub call: Call,
    pub wait_list: Seq<usize>,
    pub bytes: Seq<u8>,
}

impl View for Request {
    type V = RequestView;

    open spec fn view(&self) -> RequestView {
        RequestView { call: self.call, wait_list: self.wait_list@, bytes: self.bytes@ }
    }
}

/// What the native driver gave back for one call. A call fills the fields
/// that its doc comment names; the others are zero or empty.
#[derive(Debug)]
pub struct Reply {
    /// The signed integer that the call returned or wrote: a status, an
    /// error code or an integer parameter.
    pub integer: i32,
    /// The object that the call returned or wrote: a pointer or a name. Null
    /// and zero stand for no object.
    pub object: usize,
    /// The size or the count that the call wrote.
    pub size: usize,
    /// The time in nanoseconds that the call wrote.
    pub time: u64,
    /// The objects that the call wrote to an array.
    pub objects: Vec<usize>,
    /// The bytes that the call wrote to a buffer.
    pub bytes: Vec<u8>,
}

/// What an operation answers to the replies given so far.
#[derive(Debug)]
pub enum Step<T> {
    /// The operation is not finished: the program performs this call, appends
    /// the driver's reply to the replies and asks again.
    Call(Request),
    /// The operation is finished, with this result.
    Done(Result<T, Error>),
}

/// A `Step` with its request and its error as views.
pub enum StepView<T> {
    Call(RequestView),
    Done(Result<T, ErrorView>),
}

impl<T> View for Step<T> {
    type V = StepView<T>;

    open spec fn view(&self) -> StepView<T> {
        match self {
            Step::Call(request) => StepView::Call(request@),
            Step::Done(Ok(value)) => StepView::Done(Ok(*value)),
            Step::Done(Err(error)) => StepView::Done(Err(error@)),
        }
    }
}

/// The step that asks for `call`, which reads no data.
pub open spec fn ask<T>(call: Call) -> StepView<T> {
    StepView::Call(RequestView { call, wait_list: Seq::empty(), bytes: Seq::empty() })
}

/// The step that asks for `call` after the events of `wait_list`.
pub open spec fn ask_after<T>(call: Call, wait_list: Seq<usize>) -> StepView<T> {
    StepView::Call(RequestView { call, wait_list, bytes: Seq::empty() })
}

/// The step that asks for `call`, which reads `bytes`.
pub open spec fn ask_with<T>(call: Call, bytes: Seq<u8>) -> StepView<T> {
    StepView::Call(RequestView { call, wait_list: Seq::empty(), bytes })
}

/// The step that ends an operation with `value`.
pub open spec fn done<T>(value: T) -> StepView<T> {
    StepView::Done(Ok(value))
}

/// The step that ends an operation with the miscellaneous error.
pub open spec fn failed<T>() -> StepView<T> {
    StepView::Done(Err(ErrorView::Failed))
}

impl<T> Step<T> {
    /// Asks for `call`, which reads no data.
    pub fn ask(call: Call) -> (step: Step<T>)
        ensures
            step@ == ask::<T>(call),
    {
        Step::Call(Request { call, wait_list: Vec::new(), bytes: Vec::new() })
    }

    /// Asks for `call` after the events of `wait_list`.
    pub fn ask_after(call: Call, wait_list: Vec<usize>) -> (step: Step<T>)
        ensures
            step@ == ask_after::<T>(call, wait_list@),
    {
        Step::Call(Request { call, wait_list, bytes: Vec::new() })
    }

    /// Asks for `call`, which reads `bytes`.
    pub fn ask_with(call: Call, bytes: Vec<u8>) -> (step: Step<T>)
        ensures
            step@ == ask_with::<T>(call, bytes@),
    {
        Step::Call(Request { call, wait_list: Vec::new(), bytes })
    }

    /// Ends the operation with `value`.
    pub fn done(value: T) -> (step: Step<T>)
        ensures
            step@ == done(value),
    {
        Step::Done(Ok(value))
    }

    /// Ends the operation with the miscellaneous error.
    pub fn failed() -> (step: Step<T>)
        ensures
            step@ == failed::<T>(),
    {
        Step::Done(Err(Error::Failed))
    }

    /// Whether the operation is finished.
    pub fn is_done(&self) -> (finished: bool)
        ensures
            finished == (self@ is Done),
    {
        match self {
            Step::Call(_) => false,
            Step::Done(_) => true,
        }
    }
}

/// Whether `replies` can arise while a program drives the operation `step`:
/// the operation asked for a call before each of the replies.
pub open spec fn driven<T>(step: spec_fn(Seq<Reply>) -> StepView<T>, replies: Seq<Reply>) -> bool {
    forall|k: int| 0 <= k < replies.len() ==> step(#[trigger] replies.take(k)) is Call
}

/// Whether `replies` are all the replies of a run of the operation `step`:
/// they arise while a program drives it, and the operation is finished after
/// the last of them.
pub open spec fn complete<T>(step: spec_fn(Seq<Reply>) -> StepView<T>, replies: Seq<Reply>) -> bool {
    driven(step, replies) && step(replies) is Done
}

/// The call that the operation `step` asks for after the first `k` of
/// `replies`.
pub open spec fn call_at<T>(step: spec_fn(Seq<Reply>) -> StepView<T>, replies: Seq<Reply>, k: int) -> Call {
    step(replies.take(k))->Call_0.call
}

} // verus!
