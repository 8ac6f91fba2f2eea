use vstd::prelude::*;

verus! {

/// The outcome of a boundary call: exactly one of a success handle, which owns
/// the value, and an error handle, which owns a readable message.
pub struct FFIResult<T> {
    ok: Option<Box<T>>,
    err: Option<String>,
}

impl<T> FFIResult<T> {
    #[verifier::type_invariant]
    spec fn exactly_one(self) -> bool {
        self.ok.is_some() != self.err.is_some()
    }

    /// The value that the success handle owns, if it is set.
    pub closed spec fn ok_handle(self) -> Option<T> {
        match self.ok {
            Some(b) => Some(*b),
            None => None,
        }
    }

    /// The message that the error handle owns, if it is set.
    pub closed spec fn err_handle(self) -> Option<Seq<char>> {
        match self.err {
            Some(m) => Some(m@),
            None => None,
        }
    }

    /// A success envelope owning `value`.
    pub fn ok(value: T) -> (r: Self)
        ensures
            r.ok_handle() == Some(value),
            r.err_handle() is None,
    {
        FFIResult { ok: Some(Box::new(value)), err: None }
    }

    /// A failure envelope owning `message`.
    pub fn err(message: String) -> (r: Self)
        ensures
            r.ok_handle() is None,
            r.err_handle() == Some(message@),
    {
        FFIResult { ok: None, err: Some(message) }
    }

    /// Whether the success handle is the one that is set.
    pub fn is_ok(&self) -> (r: bool)
        ensures
            r == self.ok_handle() is Some,
            !r == self.err_handle() is Some,
    {
        proof {
            use_type_invariant(self);
        }
        self.ok.is_some()
    }

    /// Hands over both handles, one of which is set.
    pub fn into_parts(self) -> (r: (Option<T>, Option<String>))
        ensures
            r.0 == self.ok_handle(),
            r.1 is Some <==> self.err_handle() is Some,
            r.1 is Some ==> self.err_handle() == Some(r.1->Some_0@),
            r.0 is Some != r.1 is Some,
    {
        proof {
            use_type_invariant(&self);
        }
        let ok = match self.ok {
            Some(b) => Some(*b),
            None => None,
        };
        (ok, self.err)
    }
}

impl<T> From<Result<T, String>> for FFIResult<T> {
    /// `Ok(v)` becomes a success envelope owning `v`, `Err(m)` a failure
    /// envelope owning `m`.
    fn from(value: Result<T, String>) -> (r: FFIResult<T>)
        ensures
            r.ok_handle() == (match value {
                Ok(v) => Some(v),
                Err(_) => None,
            }),
            r.err_handle() == (match value {
                Ok(_) => None,
                Err(m) => Some(m@),
            }),
    {
        match value {
            Ok(v) => FFIResult::ok(v),
            Err(m) => FFIResult::err(m),
        }
    }
}

impl<T> vstd::std_specs::convert::FromSpecImpl<Result<T, String>> for FFIResult<T> {
    open spec fn obeys_from_spec() -> bool {
        false
    }

    open spec fn from_spec(v: Result<T, String>) -> FFIResult<T> {
        choose|r: FFIResult<T>|
            r.ok_handle() == (match v {
                Ok(x) => Some(x),
                Err(_) => None,
            }) && r.err_handle() == (match v {
                Ok(_) => None,
                Err(m) => Some(m@),
            })
    }
}

} // verus!
