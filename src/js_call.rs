use vstd::prelude::*;
use vstd::string::StringExecFns;

use crate::formatter::{prettified, prettify_type_name};

verus! {

/// What the host hands back from a plain call.
pub enum HostReturn<T> {
    /// A value of the expected type.
    Value(T),
    /// A value whose shape matches no type this layer converts.
    Unrecognized,
}

/// What the host hands back from a call that may or may not be asynchronous.
/// `D` is the host's deferred value, which settles with a `T` or a failure.
pub enum DeferredReturn<T, D> {
    /// A deferred value, still to be awaited.
    Deferred(D),
    /// A value of the expected type, available at once.
    Immediate(T),
    /// A value whose shape matches no type this layer converts.
    Unrecognized,
}

/// Why a call did not yield a typed value. `E` is the host's own error.
pub enum CallError<E> {
    /// The host returned a value of an unrecognized shape. `expected` and
    /// `owner` are the pretty names of the expected type and of the
    /// dispatcher, empty where they are not reported.
    UnknownReturnValue { expected: String, owner: String, message: String },
    /// The call could not be made, or failed on the host: handed on as it came.
    HostCallFailure(E),
    /// The deferred value settled with a failure: handed on as it came.
    DeferredFailure(E),
}

/// What to do next in a call that may or may not be asynchronous.
pub enum AwaitStep<T, D, E> {
    /// Await the deferred value, then hand its settlement to `settle_deferred`.
    AwaitDeferred(D),
    /// The call is over.
    Finished(Result<T, CallError<E>>),
}

/// The message of a plain call whose result could not be converted to
/// `expected`; the plain path does not report the dispatcher.
pub open spec fn plain_unknown_message(expected: Seq<char>) -> Seq<char> {
    "UNKNOWN_RETURN_VALUE. Cannot convert unknown to `"@ + expected + "` in "@
}

/// The message of a call whose result could not be converted to `expected`,
/// made by the dispatcher `owner`.
pub open spec fn unknown_message(expected: Seq<char>, owner: Seq<char>) -> Seq<char> {
    "UNKNOWN_RETURN_VALUE. Cannot convert unknown to `"@ + expected + "` in "@ + owner + "."@
}

/// `err` reports an unrecognized return value with these labels and this message.
pub open spec fn reports_unknown<E>(
    err: CallError<E>,
    expected: Seq<char>,
    owner: Seq<char>,
    message: Seq<char>,
) -> bool {
    &&& err is UnknownReturnValue
    &&& err->expected@ == expected
    &&& err->owner@ == owner
    &&& err->message@ == message
}

/// `message` holds `name` as a contiguous run of characters.
pub open spec fn mentions(message: Seq<char>, name: Seq<char>) -> bool {
    exists|i: int|
        0 <= i && i + name.len() <= message.len() && #[trigger] message.subrange(i, i + name.len())
            == name
}

/// `r` is what a plain call returns once the host has answered with `raw`;
/// `expected` is the raw name of the expected type.
pub open spec fn plain_settles<T, E>(
    raw: Result<HostReturn<T>, E>,
    expected: Seq<char>,
    r: Result<T, CallError<E>>,
) -> bool {
    match raw {
        Ok(HostReturn::Value(v)) => r == Ok::<T, CallError<E>>(v),
        Ok(HostReturn::Unrecognized) => r is Err && reports_unknown(
            r->Err_0,
            prettified(expected),
            Seq::empty(),
            plain_unknown_message(prettified(expected)),
        ),
        Err(e) => r == Err::<T, CallError<E>>(CallError::HostCallFailure(e)),
    }
}

/// `step` is what a maybe-asynchronous call does next once the host has
/// answered with `raw`; `expected` and `owner` are the raw type names.
pub open spec fn maybe_async_steps<T, D, E>(
    raw: Result<DeferredReturn<T, D>, E>,
    expected: Seq<char>,
    owner: Seq<char>,
    step: AwaitStep<T, D, E>,
) -> bool {
    match raw {
        Ok(DeferredReturn::Deferred(d)) => step == AwaitStep::<T, D, E>::AwaitDeferred(d),
        Ok(DeferredReturn::Immediate(v)) => step == AwaitStep::<T, D, E>::Finished(Ok(v)),
        Ok(DeferredReturn::Unrecognized) => step matches AwaitStep::Finished(Err(err))
            && reports_unknown(
            err,
            prettified(expected),
            prettified(owner),
            unknown_message(prettified(expected), prettified(owner)),
        ),
        Err(e) => step == AwaitStep::<T, D, E>::Finished(Err(CallError::HostCallFailure(e))),
    }
}

/// `r` is what a maybe-asynchronous call returns once its deferred value has
/// settled with `settled`.
pub open spec fn deferred_settles<T, E>(settled: Result<T, E>, r: Result<T, CallError<E>>) -> bool {
    match settled {
        Ok(v) => r == Ok::<T, CallError<E>>(v),
        Err(e) => r == Err::<T, CallError<E>>(CallError::DeferredFailure(e)),
    }
}

/// The error of a plain call whose result has an unrecognized shape, naming
/// the expected type without its namespace qualifiers.
pub fn plain_unknown_error<E>(expected_type: &str) -> (err: CallError<E>)
    ensures
        reports_unknown(
            err,
            prettified(expected_type@),
            Seq::empty(),
            plain_unknown_message(prettified(expected_type@)),
        ),
{
    let expected = prettify_type_name(expected_type);
    let owner = String::new();
    let mut message = String::from_str("UNKNOWN_RETURN_VALUE. Cannot convert unknown to `");
    message.append(expected.as_str());
    message.append("` in ");
    proof {
        assert(owner@ =~= Seq::<char>::empty());
    }
    CallError::UnknownReturnValue { expected, owner, message }
}

/// The error of a call whose result has an unrecognized shape, naming the
/// expected type and the dispatcher without their namespace qualifiers.
pub fn unknown_return_error<E>(expected_type: &str, owner_type: &str) -> (err: CallError<E>)
    ensures
        reports_unknown(
            err,
            prettified(expected_type@),
            prettified(owner_type@),
            unknown_message(prettified(expected_type@), prettified(owner_type@)),
        ),
{
    let expected = prettify_type_name(expected_type);
    let owner = prettify_type_name(owner_type);
    let mut message = String::from_str("UNKNOWN_RETURN_VALUE. Cannot convert unknown to `");
    message.append(expected.as_str());
    message.append("` in ");
    message.append(owner.as_str());
    message.append(".");
    CallError::UnknownReturnValue { expected, owner, message }
}

/// Turns the host's answer to a plain call into a typed result: a value is
/// handed back unchanged, an unrecognized shape becomes `UnknownReturnValue`,
/// and a failure of the call itself is handed on. `expected_type` is the raw
/// name of the expected type, used only in the error for an unrecognized shape.
pub fn settle_plain<T, E>(raw: Result<HostReturn<T>, E>, expected_type: &str) -> (r: Result<
    T,
    CallError<E>,
>)
    ensures
        plain_settles(raw, expected_type@, r),
{
    match raw {
        Ok(HostReturn::Value(v)) => Ok(v),
        Ok(HostReturn::Unrecognized) => Err(plain_unknown_error(expected_type)),
        Err(e) => Err(CallError::HostCallFailure(e)),
    }
}

/// Decides what a maybe-asynchronous call does with the host's answer: await a
/// deferred value, or finish with the immediate value or with an error.
/// `expected_type` and `owner_type` are the raw names of the expected type and
/// of the dispatcher, used only in the error for an unrecognized shape.
pub fn step_maybe_async<T, D, E>(
    raw: Result<DeferredReturn<T, D>, E>,
    expected_type: &str,
    owner_type: &str,
) -> (step: AwaitStep<T, D, E>)
    ensures
        maybe_async_steps(raw, expected_type@, owner_type@, step),
{
    match raw {
        Ok(DeferredReturn::Deferred(d)) => AwaitStep::AwaitDeferred(d),
        Ok(DeferredReturn::Immediate(v)) => AwaitStep::Finished(Ok(v)),
        Ok(DeferredReturn::Unrecognized) => AwaitStep::Finished(
            Err(unknown_return_error(expected_type, owner_type)),
        ),
        Err(e) => AwaitStep::Finished(Err(CallError::HostCallFailure(e))),
    }
}

/// Ends a maybe-asynchronous call once its deferred value has settled: its
/// value is handed back unchanged, its failure handed on unchanged.
pub fn settle_deferred<T, E>(settled: Result<T, E>) -> (r: Result<T, CallError<E>>)
    ensures
        deferred_settles(settled, r),
{
    match settled {
        Ok(v) => Ok(v),
        Err(e) => Err(CallError::DeferredFailure(e)),
    }
}

/// A value of the expected type that the host returns at once comes back
/// unchanged, from a plain call and from a maybe-asynchronous one alike.
pub proof fn lemma_plain_value_unchanged<T, D, E>(
    v: T,
    plain: Result<T, CallError<E>>,
    step: AwaitStep<T, D, E>,
    expected: Seq<char>,
    owner: Seq<char>,
)
    requires
        plain_settles(Ok::<HostReturn<T>, E>(HostReturn::Value(v)), expected, plain),
        maybe_async_steps(Ok::<DeferredReturn<T, D>, E>(DeferredReturn::Immediate(v)), expected, owner, step),
    ensures
        plain == Ok::<T, CallError<E>>(v),
        step == AwaitStep::<T, D, E>::Finished(Ok(v)),
{
}

/// A return value of unrecognized shape makes both kinds of call fail with
/// `UnknownReturnValue`; each error carries the expected type's name without
/// its qualifiers, and each message holds that name.
pub proof fn lemma_unknown_shape_reported<T, D, E>(
    plain: Result<T, CallError<E>>,
    step: AwaitStep<T, D, E>,
    expected: Seq<char>,
    owner: Seq<char>,
)
    requires
        plain_settles(Ok::<HostReturn<T>, E>(HostReturn::Unrecognized), expected, plain),
        maybe_async_steps(Ok::<DeferredReturn<T, D>, E>(DeferredReturn::Unrecognized), expected, owner, step),
    ensures
        plain matches Err(err) && err is UnknownReturnValue && err->expected@ == prettified(expected)
            && mentions(err->message@, prettified(expected)),
        step matches AwaitStep::Finished(Err(err)) && err is UnknownReturnValue && err->expected@
            == prettified(expected) && mentions(err->message@, prettified(expected)),
{
    let pretty = prettified(expected);
    let head = "UNKNOWN_RETURN_VALUE. Cannot convert unknown to `"@;
    let i = head.len() as int;
    let plain_msg = plain_unknown_message(pretty);
    assert(plain_msg.subrange(i, i + pretty.len()) =~= pretty);
    let msg = unknown_message(pretty, prettified(owner));
    assert(msg.subrange(i, i + pretty.len()) =~= pretty);
}

/// A deferred value is awaited, and the call then returns exactly what it
/// settled with: its value, or its own failure, unchanged.
pub proof fn lemma_deferred_value_settles<T, D, E>(
    d: D,
    step: AwaitStep<T, D, E>,
    expected: Seq<char>,
    owner: Seq<char>,
    settled: Result<T, E>,
    r: Result<T, CallError<E>>,
)
    requires
        maybe_async_steps(Ok::<DeferredReturn<T, D>, E>(DeferredReturn::Deferred(d)), expected, owner, step),
        deferred_settles(settled, r),
    ensures
        step == AwaitStep::<T, D, E>::AwaitDeferred(d),
        settled matches Ok(v) ==> r == Ok::<T, CallError<E>>(v),
        settled matches Err(e) ==> r == Err::<T, CallError<E>>(CallError::DeferredFailure(e)),
{
}

} // verus!
