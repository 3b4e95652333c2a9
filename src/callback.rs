//! Objects that satisfy the foreign dispatch contract on behalf of a closure:
//! interface identity queries, reference counting, and invocation with arguments
//! converted from their raw form.
use vstd::prelude::*;
use crate::com::{ErrorCode, Guid, IUNKNOWN_IID, S_OK, E_NOINTERFACE, E_POINTER};
use crate::wide::{string_from_pwstr, wide_text};

verus! {

broadcast use vstd::function::group_function_axioms;

/// The output pointer of an interface query.
#[derive(Clone, Copy, Debug, PartialEq, Eq, Structural)]
pub enum InterfaceOut {
    /// The caller passed a null pointer.
    Null,
    /// A valid pointer that has not been written.
    Unset,
    /// A valid pointer that now refers to the queried object.
    Object,
}

/// Whether an object declaring `declared` answers a query for `requested`.
pub open spec fn answers(declared: Guid, requested: Guid) -> bool {
    requested.value == IUNKNOWN_IID || requested == declared
}

/// The status of an interface query, given the output pointer and the identities.
pub open spec fn query_status(declared: Guid, requested: Guid, out: InterfaceOut) -> u32 {
    if out == InterfaceOut::Null {
        E_POINTER
    } else if answers(declared, requested) {
        S_OK
    } else {
        E_NOINTERFACE
    }
}

/// The identity, reference count and query entry point shared by both kinds of shim.
pub trait CallbackInterface: Sized {
    /// The interface identity the object declares.
    spec fn declared_iid(&self) -> Guid;

    /// The number of references held.
    spec fn ref_count(&self) -> nat;

    /// Everything but the reference count is the same in `self` and `other`.
    spec fn same_but_count(&self, other: &Self) -> bool;

    /// True when one more reference can be counted.
    fn can_add_ref(&self) -> (r: bool)
        ensures
            r == (self.ref_count() < u32::MAX),
    ;

    /// Answers a query for `requested`: on a match the count grows by one and the
    /// output refers to the object; a null output is refused with the count kept.
    fn query_interface(&mut self, requested: Guid, out: &mut InterfaceOut) -> (r: ErrorCode)
        requires
            old(self).ref_count() < u32::MAX,
        ensures
            r.value == query_status(old(self).declared_iid(), requested, *old(out)),
            r.value == S_OK ==> final(self).ref_count() == old(self).ref_count() + 1
                && *final(out) == InterfaceOut::Object,
            r.value != S_OK ==> final(self).ref_count() == old(self).ref_count()
                && *final(out) == *old(out),
            final(self).same_but_count(old(self)),
    ;
}

/// A conversion of one raw argument of the foreign calling convention into an owned value.
pub trait ClosureArg {
    type Input;

    type Output;

    /// True when `output` is what `input` converts to.
    spec fn converts(input: Self::Input, output: Self::Output) -> bool;

    fn convert(input: Self::Input) -> (r: Self::Output)
        ensures
            Self::converts(input, r),
    ;
}

/// A status code passed through as it is.
pub struct ErrorCodeArg;

impl ClosureArg for ErrorCodeArg {
    type Input = i32;

    type Output = ErrorCode;

    open spec fn converts(input: i32, output: ErrorCode) -> bool {
        output.value == input as u32
    }

    fn convert(input: i32) -> (r: ErrorCode) {
        ErrorCode { value: input as u32 }
    }
}

/// A raw wide string (null, or units up to a zero terminator) read into an owned string.
pub struct StringArg;

impl ClosureArg for StringArg {
    type Input = Option<Vec<u16>>;

    type Output = String;

    open spec fn converts(input: Option<Vec<u16>>, output: String) -> bool {
        output@ == wide_text(
            match input {
                Some(units) => Some(units@),
                None => None,
            },
        )
    }

    fn convert(input: Option<Vec<u16>>) -> (r: String) {
        match &input {
            Some(units) => string_from_pwstr(Some(units.as_slice())),
            None => string_from_pwstr(None),
        }
    }
}

/// A raw interface pointer (null, or an object) read into an owned reference: the
/// object is asked for the base identity, which acquires a reference; a null pointer
/// or a refused query gives `None`.
pub struct InterfaceArg<I>(std::marker::PhantomData<I>);

impl<I: CallbackInterface> ClosureArg for InterfaceArg<I> {
    type Input = Option<I>;

    type Output = Option<I>;

    open spec fn converts(input: Option<I>, output: Option<I>) -> bool {
        match input {
            None => output is None,
            Some(obj) => if obj.ref_count() < u32::MAX {
                &&& output is Some
                &&& output->0.ref_count() == obj.ref_count() + 1
                &&& output->0.same_but_count(&obj)
            } else {
                output is None
            },
        }
    }

    fn convert(input: Option<I>) -> (r: Option<I>) {
        match input {
            None => None,
            Some(obj) => {
                let mut obj = obj;
                if !obj.can_add_ref() {
                    return None;
                }
                let mut out = InterfaceOut::Unset;
                let status = obj.query_interface(Guid::iunknown(), &mut out);
                if status.is_ok() {
                    Some(obj)
                } else {
                    None
                }
            },
        }
    }
}

/// A reference-count call on a shim.
#[derive(Clone, Copy, Debug, PartialEq, Eq, Structural)]
pub enum RefOp {
    AddRef,
    Release,
}

/// The number of `add_ref` calls in `ops`.
pub open spec fn add_refs(ops: Seq<RefOp>) -> nat
    decreases ops.len(),
{
    if ops.len() == 0 {
        0
    } else {
        add_refs(ops.drop_last()) + if ops.last() == RefOp::AddRef {
            1nat
        } else {
            0nat
        }
    }
}

/// The number of `release` calls in `ops`.
pub open spec fn releases(ops: Seq<RefOp>) -> nat
    decreases ops.len(),
{
    if ops.len() == 0 {
        0
    } else {
        releases(ops.drop_last()) + if ops.last() == RefOp::Release {
            1nat
        } else {
            0nat
        }
    }
}

/// The count that `ops`, applied in order, leave from a count of `start`: each
/// `add_ref` returns one more, each `release` one less.
pub open spec fn count_after(start: int, ops: Seq<RefOp>) -> int
    decreases ops.len(),
{
    if ops.len() == 0 {
        start
    } else if ops.last() == RefOp::AddRef {
        count_after(start, ops.drop_last()) + 1
    } else {
        count_after(start, ops.drop_last()) - 1
    }
}

/// A sequence of calls on a new shim (count one) that can all be made, each on a
/// shim still holding a reference, and that releases every reference it took.
pub open spec fn balanced(ops: Seq<RefOp>) -> bool {
    &&& releases(ops) == add_refs(ops) + 1
    &&& forall|k: int| 0 <= k < ops.len() ==> releases(#[trigger] ops.take(k)) <= add_refs(ops.take(k))
}

proof fn lemma_count_after(ops: Seq<RefOp>)
    ensures
        count_after(1, ops) == 1 + add_refs(ops) - releases(ops),
    decreases ops.len(),
{
    if ops.len() > 0 {
        lemma_count_after(ops.drop_last());
    }
}

/// Over a balanced sequence of `add_ref` and `release` calls on a new shim, the
/// count reaches zero exactly once: at the last call, never before.
pub proof fn lemma_balanced_frees_once(ops: Seq<RefOp>)
    requires
        balanced(ops),
    ensures
        forall|k: int| 1 <= k <= ops.len() ==> (count_after(1, #[trigger] ops.take(k)) == 0 <==> k == ops.len()),
        forall|k: int| 0 <= k <= ops.len() ==> count_after(1, #[trigger] ops.take(k)) >= 0,
{
    assert forall|k: int| 0 <= k <= ops.len() implies (count_after(1, #[trigger] ops.take(k)) >= 0
        && (k >= 1 ==> (count_after(1, ops.take(k)) == 0 <==> k == ops.len()))) by {
        lemma_count_after(ops.take(k));
        if k == ops.len() {
            assert(ops.take(k) =~= ops);
        } else {
            assert(releases(ops.take(k)) <= add_refs(ops.take(k)));
        }
    }
}

/// A shim for a completion handler: its closure runs at most once.
pub struct CompletedShim<F> {
    iid: Guid,
    refcount: u32,
    completed: Option<F>,
}

/// A shim for an event handler: its closure runs on every invocation.
pub struct EventShim<F> {
    iid: Guid,
    refcount: u32,
    event: F,
}

impl<F> CallbackInterface for CompletedShim<F> {
    closed spec fn declared_iid(&self) -> Guid {
        self.iid
    }

    closed spec fn ref_count(&self) -> nat {
        self.refcount as nat
    }

    closed spec fn same_but_count(&self, other: &Self) -> bool {
        self.iid == other.iid && self.completed == other.completed
    }

    fn can_add_ref(&self) -> (r: bool) {
        self.refcount < u32::MAX
    }

    fn query_interface(&mut self, requested: Guid, out: &mut InterfaceOut) -> (r: ErrorCode) {
        if *out == InterfaceOut::Null {
            ErrorCode { value: E_POINTER }
        } else if requested.value == IUNKNOWN_IID || requested == self.iid {
            self.refcount = self.refcount + 1;
            *out = InterfaceOut::Object;
            ErrorCode { value: S_OK }
        } else {
            ErrorCode { value: E_NOINTERFACE }
        }
    }
}

impl<F> CompletedShim<F> {
    /// The closure still waiting to run, if any.
    pub closed spec fn payload(&self) -> Option<F> {
        self.completed
    }

    /// A new shim declaring `iid`, holding one reference and the closure.
    pub fn new(iid: Guid, completed: F) -> (r: Self)
        ensures
            r.declared_iid() == iid,
            r.ref_count() == 1,
            r.payload() == Some(completed),
    {
        CompletedShim { iid, refcount: 1, completed: Some(completed) }
    }

    /// Counts one more reference and returns the new count.
    pub fn add_ref(&mut self) -> (r: u32)
        requires
            old(self).ref_count() < u32::MAX,
        ensures
            r == old(self).ref_count() + 1,
            final(self).ref_count() == r,
            final(self).same_but_count(old(self)),
    {
        self.refcount = self.refcount + 1;
        self.refcount
    }

    /// Drops one reference and returns the new count with the shim, which is
    /// gone exactly when the count reaches zero.
    pub fn release(self) -> (r: (u32, Option<Self>))
        requires
            self.ref_count() >= 1,
        ensures
            r.0 == self.ref_count() - 1,
            r.1 is None <==> r.0 == 0,
            r.1 matches Some(s) ==> s.ref_count() == r.0 && s.same_but_count(&self),
    {
        let count = self.refcount - 1;
        if count == 0 {
            (0, None)
        } else {
            let CompletedShim { iid, refcount: _, completed } = self;
            (count, Some(CompletedShim { iid, refcount: count, completed }))
        }
    }

    /// Runs the closure, if it has not run yet, on the converted arguments and
    /// returns its status; once it has run, a further call does nothing and
    /// reports success.
    pub fn invoke<A: ClosureArg, B: ClosureArg>(&mut self, arg_1: A::Input, arg_2: B::Input) -> (r: i32) where
        F: FnOnce(A::Output, B::Output) -> ErrorCode,

        requires
            old(self).payload() matches Some(f) ==> forall|x: A::Output, y: B::Output|
                A::converts(arg_1, x) && B::converts(arg_2, y) ==> #[trigger] f.requires((x, y)),
        ensures
            final(self).payload() is None,
            final(self).ref_count() == old(self).ref_count(),
            final(self).declared_iid() == old(self).declared_iid(),
            old(self).payload() is None ==> r == S_OK as i32,
            old(self).payload() matches Some(f) ==> exists|x: A::Output, y: B::Output, code: ErrorCode|
                A::converts(arg_1, x) && B::converts(arg_2, y) && #[trigger] f.ensures((x, y), code)
                    && r == #[verifier::truncate] (code.value as i32),
    {
        match self.completed.take() {
            Some(completed) => {
                let x = A::convert(arg_1);
                let y = B::convert(arg_2);
                let code = completed(x, y);
                code.to_raw()
            },
            None => S_OK as i32,
        }
    }
}

impl<F> CallbackInterface for EventShim<F> {
    closed spec fn declared_iid(&self) -> Guid {
        self.iid
    }

    closed spec fn ref_count(&self) -> nat {
        self.refcount as nat
    }

    closed spec fn same_but_count(&self, other: &Self) -> bool {
        self.iid == other.iid && self.event == other.event
    }

    fn can_add_ref(&self) -> (r: bool) {
        self.refcount < u32::MAX
    }

    fn query_interface(&mut self, requested: Guid, out: &mut InterfaceOut) -> (r: ErrorCode) {
        if *out == InterfaceOut::Null {
            ErrorCode { value: E_POINTER }
        } else if requested.value == IUNKNOWN_IID || requested == self.iid {
            self.refcount = self.refcount + 1;
            *out = InterfaceOut::Object;
            ErrorCode { value: S_OK }
        } else {
            ErrorCode { value: E_NOINTERFACE }
        }
    }
}

impl<F> EventShim<F> {
    /// The closure run on each invocation.
    pub closed spec fn handler(&self) -> F {
        self.event
    }

    /// A new shim declaring `iid`, holding one reference and the closure.
    pub fn new(iid: Guid, event: F) -> (r: Self)
        ensures
            r.declared_iid() == iid,
            r.ref_count() == 1,
            r.handler() == event,
    {
        EventShim { iid, refcount: 1, event }
    }

    /// Counts one more reference and returns the new count.
    pub fn add_ref(&mut self) -> (r: u32)
        requires
            old(self).ref_count() < u32::MAX,
        ensures
            r == old(self).ref_count() + 1,
            final(self).ref_count() == r,
            final(self).same_but_count(old(self)),
    {
        self.refcount = self.refcount + 1;
        self.refcount
    }

    /// Drops one reference and returns the new count with the shim, which is
    /// gone exactly when the count reaches zero.
    pub fn release(self) -> (r: (u32, Option<Self>))
        requires
            self.ref_count() >= 1,
        ensures
            r.0 == self.ref_count() - 1,
            r.1 is None <==> r.0 == 0,
            r.1 matches Some(s) ==> s.ref_count() == r.0 && s.same_but_count(&self),
    {
        let count = self.refcount - 1;
        if count == 0 {
            (0, None)
        } else {
            let EventShim { iid, refcount: _, event } = self;
            (count, Some(EventShim { iid, refcount: count, event }))
        }
    }

    /// Runs the closure on the converted arguments and returns its status; the
    /// closure stays for later invocations.
    pub fn invoke<A: ClosureArg, B: ClosureArg>(&mut self, arg_1: A::Input, arg_2: B::Input) -> (r: i32) where
        F: FnMut(A::Output, B::Output) -> ErrorCode,

        requires
            forall|x: A::Output, y: B::Output|
                A::converts(arg_1, x) && B::converts(arg_2, y) ==> #[trigger] old(self).handler().requires((x, y)),
        ensures
            *final(self) == *old(self),
            exists|x: A::Output, y: B::Output, code: ErrorCode|
                A::converts(arg_1, x) && B::converts(arg_2, y) && #[trigger] old(self).handler().ensures((x, y), code)
                    && r == #[verifier::truncate] (code.value as i32),
    {
        let x = A::convert(arg_1);
        let y = B::convert(arg_2);
        assert(self.handler().requires((x, y)));
        let code = (self.event)(x, y);
        assert(self.handler().ensures((x, y), code));
        code.to_raw()
    }
}

} // verus!
