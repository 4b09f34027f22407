//! Trusted declarations for `hyper`'s HTTP/2 connection builder.
//!
//! The builder is held together with a ghost record of whether any option
//! has been set on it since it was made, in a struct whose fields only this
//! module can reach: the trusted constructor records hyper's defaults, and
//! handing the builder to a caller's function records that options may have
//! changed.
use vstd::prelude::*;

verus! {

#[verifier::external_type_specification]
#[verifier::external_body]
#[verifier::reject_recursive_types(Ex)]
pub struct ExHttp2Builder<Ex>(hyper::client::conn::http2::Builder<Ex>);

/// `hyper`'s HTTP/2 connection builder on the Tokio executor, viewed as
/// whether it still holds hyper's default settings (`true`) or has been
/// handed to a function that may have set options (`false`).
pub struct Http2Builder {
    builder: hyper::client::conn::http2::Builder<hyper_util::rt::TokioExecutor>,
    untouched: Ghost<bool>,
}

impl View for Http2Builder {
    type V = bool;

    closed spec fn view(&self) -> bool {
        self.untouched@
    }
}

impl Http2Builder {
    /// The `hyper` builder held here.
    pub closed spec fn builder(&self) -> hyper::client::conn::http2::Builder<hyper_util::rt::TokioExecutor> {
        self.builder
    }

    /// The builder, for the runtime that makes connections with it.
    pub fn into_inner(self) -> (b: hyper::client::conn::http2::Builder<hyper_util::rt::TokioExecutor>)
        ensures
            b == self.builder(),
    {
        self.builder
    }

    /// `hyper::client::conn::http2::Builder::new`: a connection builder with
    /// hyper's default HTTP/2 settings and no option set, that spawns on
    /// `executor`.
    #[verifier::external_body]
    pub(crate) fn new(executor: hyper_util::rt::TokioExecutor) -> (b: Self)
        ensures
            b@,
    {
        Http2Builder { builder: hyper::client::conn::http2::Builder::new(executor), untouched: Ghost(true) }
    }

    /// Hands the builder to `function`, which may set options on it.
    pub(crate) fn configure<F: FnOnce(&mut hyper::client::conn::http2::Builder<hyper_util::rt::TokioExecutor>)>(
        &mut self,
        function: F,
    )
        requires
            forall|b: &mut hyper::client::conn::http2::Builder<hyper_util::rt::TokioExecutor>| function.requires((b,)),
        ensures
            !final(self)@,
            exists|b: &mut hyper::client::conn::http2::Builder<hyper_util::rt::TokioExecutor>|
                *b == old(self).builder() && *final(b) == final(self).builder() && function.ensures((b,), ()),
    {
        function(&mut self.builder);
        self.untouched = Ghost(false);
    }
}

} // verus!
