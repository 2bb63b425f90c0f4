//! The uniform envelope around every command result.

use vstd::prelude::*;

verus! {

/// Outcome flags of one command invocation.
#[derive(Debug, Clone, Copy, PartialEq, Eq, Structural)]
pub struct ResponseMeta {
    pub success: bool,
    pub duration_ms: u64,
    pub is_complete: bool,
}

impl ResponseMeta {
    /// The transient marker shown before a response has arrived: not
    /// successful, no duration, not complete.
    pub open spec fn spec_incomplete() -> ResponseMeta {
        ResponseMeta { success: false, duration_ms: 0, is_complete: false }
    }

    /// A terminal value: always complete.
    pub open spec fn terminal(success: bool, duration_ms: u64) -> ResponseMeta {
        ResponseMeta { success, duration_ms, is_complete: true }
    }

    /// Creates a `ResponseMeta` of incomplete status, for the calling side to
    /// display while it waits.
    pub fn incomplete() -> (r: Self)
        ensures
            r == Self::spec_incomplete(),
    {
        Self { success: false, duration_ms: 0, is_complete: false }
    }
}

impl Default for ResponseMeta {
    fn default() -> (r: Self)
        ensures
            r == (ResponseMeta { success: false, duration_ms: 0, is_complete: false }),
    {
        ResponseMeta { success: false, duration_ms: 0, is_complete: false }
    }
}

/// Builder of terminal `ResponseMeta` values: the success flag is given up
/// front, the elapsed duration is optional and counts as zero when unset.
#[derive(Debug, Clone, Copy, PartialEq, Eq, Structural)]
pub struct ResponseMetaBuilder {
    pub success: bool,
    pub duration_ms: Option<u64>,
}

impl ResponseMetaBuilder {
    /// The value that `build` yields for this builder.
    pub open spec fn built(self) -> ResponseMeta {
        ResponseMeta::terminal(
            self.success,
            match self.duration_ms {
                Some(d) => d,
                None => 0,
            },
        )
    }

    pub fn new(success: bool) -> (b: Self)
        ensures
            b == (ResponseMetaBuilder { success, duration_ms: None }),
    {
        Self { success, duration_ms: None }
    }

    /// Records the elapsed duration; a later call replaces an earlier one.
    pub fn duration_ms(self, duration_ms: u64) -> (b: Self)
        ensures
            b == (ResponseMetaBuilder { success: self.success, duration_ms: Some(duration_ms) }),
    {
        Self { success: self.success, duration_ms: Some(duration_ms) }
    }

    pub fn build(self) -> (m: ResponseMeta)
        ensures
            m == self.built(),
            m.is_complete,
            m.success == self.success,
    {
        ResponseMeta {
            success: self.success,
            duration_ms: match self.duration_ms {
                Some(d) => d,
                None => 0,
            },
            is_complete: true,
        }
    }
}

/// The envelope: flags plus a message that carries either the serialized
/// payload or the description of the failure. Callers tell the two apart by
/// `meta.success` alone.
#[derive(Debug, Clone, PartialEq, Eq)]
pub struct ApiResponse {
    pub meta: ResponseMeta,
    pub message: String,
}

/// Mathematical content of an `ApiResponse`.
pub struct ApiResponseView {
    pub meta: ResponseMeta,
    pub message: Seq<char>,
}

impl View for ApiResponse {
    type V = ApiResponseView;

    open spec fn view(&self) -> ApiResponseView {
        ApiResponseView { meta: self.meta, message: self.message@ }
    }
}

impl ApiResponse {
    pub fn new(meta: ResponseMeta, message: String) -> (r: Self)
        ensures
            r.meta == meta,
            r.message == message,
    {
        Self { meta, message }
    }

    /// The placeholder of the calling side for a pending request: incomplete
    /// flags and an empty message.
    pub fn new_incomplete() -> (r: Self)
        ensures
            r@ == (ApiResponseView {
                meta: ResponseMeta::spec_incomplete(),
                message: Seq::<char>::empty(),
            }),
    {
        Self { meta: ResponseMeta::incomplete(), message: String::new() }
    }
}

impl Default for ApiResponse {
    fn default() -> (r: Self)
        ensures
            r.meta == (ResponseMeta { success: false, duration_ms: 0, is_complete: false }),
            r.message@ == Seq::<char>::empty(),
    {
        ApiResponse {
            meta: ResponseMeta { success: false, duration_ms: 0, is_complete: false },
            message: String::new(),
        }
    }
}

} // verus!
