//! The exchange filter: the state of one exchange and what it answers to the
//! events of that exchange.
//!
//! The host reports four kinds of event: the headers and the body chunks of
//! the request, and those of the response. Headers are put to the guard of
//! their direction as a declared length, body chunks as bytes to count. A
//! guard's `Reject` becomes the rejection of its direction: the host is told
//! to pause, and to send a short response with the status that the snapshot
//! gives for that direction.
//!
//! Every body chunk is counted, whatever the transfer encoding and whatever
//! the headers declared. Nothing is ever taken off a count: the guards start
//! at zero when the exchange begins and are not reset while it lasts.
//!
//! An event of a direction that has terminated is let through unseen. So is
//! every event of the response once the request has been rejected: the
//! response that then passes is the filter's own. The request of an exchange
//! whose response was rejected is still judged on its own bytes.

use crate::config::Configuration;
use crate::decimal::{declared_length, parse_content_length};
use crate::guard::{SizeGuard, Verdict};
use vstd::prelude::*;

verus! {

/// The two byte streams of an exchange.
#[derive(Clone, Copy, Debug, PartialEq, Eq, Structural)]
pub enum Direction {
    Request,
    Response,
}

/// Something that the host reports about an exchange.
#[derive(Clone, Copy, Debug, PartialEq, Eq)]
pub enum Event {
    /// The headers of one direction have arrived. `declared` is the length
    /// that they declare for the body, if they declare one that can be read.
    Headers { direction: Direction, declared: Option<u64> },
    /// `size` more bytes of the body of one direction have arrived.
    Body { direction: Direction, size: u64 },
}

/// The body of the response sent for a request that is too large.
pub const REQUEST_TOO_LARGE: &'static str = "Payload Too Large";

/// The body of the response sent for a response that is too large.
pub const RESPONSE_TOO_LARGE: &'static str = "Bad Gateway: Payload Too Large";

/// The response that takes the place of a rejected exchange. It has a status
/// and a body, and no headers of its own.
#[derive(Clone, Copy, Debug, PartialEq, Eq)]
pub struct SyntheticResponse {
    pub status: u32,
    pub body: &'static str,
}

/// The answer to one event.
#[derive(Clone, Copy, Debug, PartialEq, Eq)]
pub enum Decision {
    /// The host goes on with the exchange.
    Continue,
    /// The host stops delivering this phase of the exchange and sends the
    /// response given here in its place.
    Reject(SyntheticResponse),
}

/// `proxy_wasm::types::Action`, what a handler tells the host to do next.
#[verifier::external_type_specification]
pub struct ExAction(proxy_wasm::types::Action);

impl Decision {
    /// What the host is told: to go on, or to pause this phase.
    pub open spec fn host_action(self) -> proxy_wasm::types::Action {
        match self {
            Decision::Continue => proxy_wasm::types::Action::Continue,
            Decision::Reject(_) => proxy_wasm::types::Action::Pause,
        }
    }

    /// The response to send in place of the exchange, if there is one.
    pub open spec fn synthetic_response(self) -> Option<SyntheticResponse> {
        match self {
            Decision::Continue => None,
            Decision::Reject(response) => Some(response),
        }
    }

    /// What to tell the host: `Continue`, or `Pause` with a rejection.
    pub fn action(&self) -> (action: proxy_wasm::types::Action)
        ensures
            action == self.host_action(),
    {
        match self {
            Decision::Continue => proxy_wasm::types::Action::Continue,
            Decision::Reject(_) => proxy_wasm::types::Action::Pause,
        }
    }

    /// The response to send in place of the exchange, if there is one.
    pub fn response(&self) -> (response: Option<SyntheticResponse>)
        ensures
            response == self.synthetic_response(),
    {
        match self {
            Decision::Continue => None,
            Decision::Reject(response) => Some(*response),
        }
    }
}

/// The state of one exchange: the snapshot that was current when the
/// exchange began, and one guard for each direction.
#[derive(Debug)]
pub struct HttpLimitSize {
    pub context_id: u32,
    pub log_id: String,
    pub configuration: Configuration,
    pub request: SizeGuard,
    pub response: SizeGuard,
}

impl Event {
    /// The direction that the event belongs to.
    pub open spec fn direction(self) -> Direction {
        match self {
            Event::Headers { direction, .. } => direction,
            Event::Body { direction, .. } => direction,
        }
    }
}

/// The length that a `Content-Length` value declares; a header that is not
/// there declares none.
pub open spec fn declared_by(content_length: Option<&str>) -> Option<u64> {
    match content_length {
        Some(text) => declared_length(text@),
        None => None,
    }
}

impl HttpLimitSize {
    /// The limit of a direction; `None` where there is none.
    pub open spec fn limit(self, direction: Direction) -> Option<u64> {
        match direction {
            Direction::Request => self.configuration.max_request_size,
            Direction::Response => self.configuration.max_response_size,
        }
    }

    /// The guard of a direction.
    pub open spec fn guard(self, direction: Direction) -> SizeGuard {
        match direction {
            Direction::Request => self.request,
            Direction::Response => self.response,
        }
    }

    /// This exchange with `guard` in the place of the guard of `direction`.
    pub open spec fn with_guard(self, direction: Direction, guard: SizeGuard) -> HttpLimitSize {
        match direction {
            Direction::Request => HttpLimitSize { request: guard, ..self },
            Direction::Response => HttpLimitSize { response: guard, ..self },
        }
    }

    /// The response that replaces an exchange rejected in `direction`.
    pub open spec fn rejection(self, direction: Direction) -> SyntheticResponse {
        match direction {
            Direction::Request => SyntheticResponse {
                status: self.configuration.status_codes.request,
                body: REQUEST_TOO_LARGE,
            },
            Direction::Response => SyntheticResponse {
                status: self.configuration.status_codes.response,
                body: RESPONSE_TOO_LARGE,
            },
        }
    }

    /// A rejection has been answered to some event of this exchange.
    pub open spec fn spec_bailed_out(&self) -> bool {
        self.request.terminated || self.response.terminated
    }

    /// Whether a rejection has been answered to some event of this exchange.
    #[verifier::when_used_as_spec(spec_bailed_out)]
    pub fn bailed_out(&self) -> (bailed: bool)
        ensures
            bailed == self.spec_bailed_out(),
    {
        self.request.terminated || self.response.terminated
    }

    /// Every direction that is still open has counted no more than its
    /// limit.
    pub open spec fn within_limits(self) -> bool {
        &&& self.request.terminated || self.request.within(self.configuration.max_request_size)
        &&& self.response.terminated || self.response.within(
            self.configuration.max_response_size,
        )
    }

    /// Events of `direction` are let through without being looked at: the
    /// direction has terminated, or it is the response of an exchange whose
    /// request was rejected.
    pub open spec fn passes(self, direction: Direction) -> bool {
        self.guard(direction).terminated || self.request.terminated
    }

    /// What the guard of an event's direction answers to it.
    pub open spec fn guard_after(self, event: Event) -> (SizeGuard, Verdict) {
        match event {
            Event::Headers { direction, declared } => self.guard(direction).after_declared(
                self.limit(direction),
                declared,
            ),
            Event::Body { direction, size } => self.guard(direction).after_chunk(
                self.limit(direction),
                size,
            ),
        }
    }

    /// The exchange after `event`, and the answer to it.
    pub open spec fn after(self, event: Event) -> (HttpLimitSize, Decision) {
        let direction = event.direction();
        if self.passes(direction) {
            (self, Decision::Continue)
        } else {
            let (guard, verdict) = self.guard_after(event);
            (
                self.with_guard(direction, guard),
                match verdict {
                    Verdict::Continue => Decision::Continue,
                    Verdict::Reject => Decision::Reject(self.rejection(direction)),
                },
            )
        }
    }
}

impl HttpLimitSize {
    /// Nothing has happened to this exchange yet: nothing is counted, no
    /// direction is terminated.
    pub open spec fn fresh(self) -> bool {
        self.request == SizeGuard::fresh() && self.response == SizeGuard::fresh()
    }

    /// The limit of the request, `None` where it has none.
    #[inline(always)]
    pub fn max_request_size(&self) -> (limit: Option<u64>)
        ensures
            limit == self.limit(Direction::Request),
    {
        self.configuration.max_request_size
    }

    /// The limit of the response, `None` where it has none.
    #[inline(always)]
    pub fn max_response_size(&self) -> (limit: Option<u64>)
        ensures
            limit == self.limit(Direction::Response),
    {
        self.configuration.max_response_size
    }

    #[inline(always)]
    fn bail_request_payload_too_large(&self) -> (decision: Decision)
        ensures
            decision == Decision::Reject(self.rejection(Direction::Request)),
    {
        Decision::Reject(
            SyntheticResponse {
                status: self.configuration.status_codes.request,
                body: REQUEST_TOO_LARGE,
            },
        )
    }

    #[inline(always)]
    fn bail_response_payload_too_large(&self) -> (decision: Decision)
        ensures
            decision == Decision::Reject(self.rejection(Direction::Response)),
    {
        Decision::Reject(
            SyntheticResponse {
                status: self.configuration.status_codes.response,
                body: RESPONSE_TOO_LARGE,
            },
        )
    }

    /// The declared-length check of one direction: reads the length that
    /// `content_length` declares and puts it to the guard of `direction`. A
    /// value that declares nothing is no fault; the body is counted anyway.
    #[inline(always)]
    fn limit_content_length(
        &mut self,
        direction: Direction,
        content_length: Option<&str>,
    ) -> (decision: Decision)
        requires
            !old(self).passes(direction),
        ensures
            (*final(self), decision) == old(self).after(
                Event::Headers { direction, declared: declared_by(content_length) },
            ),
    {
        let declared = match content_length {
            Some(text) => parse_content_length(text),
            None => None,
        };
        match direction {
            Direction::Request => {
                let max_size = self.max_request_size();
                match self.request.declared_length(max_size, declared) {
                    Verdict::Reject => self.bail_request_payload_too_large(),
                    Verdict::Continue => Decision::Continue,
                }
            },
            Direction::Response => {
                let max_size = self.max_response_size();
                match self.response.declared_length(max_size, declared) {
                    Verdict::Reject => self.bail_response_payload_too_large(),
                    Verdict::Continue => Decision::Continue,
                }
            },
        }
    }

    /// The request headers have arrived; `content_length` is the value of
    /// their `Content-Length`, if they have one.
    pub fn on_http_request_headers(
        &mut self,
        _num_headers: usize,
        _end_of_stream: bool,
        content_length: Option<&str>,
    ) -> (decision: Decision)
        ensures
            (*final(self), decision) == old(self).after(
                Event::Headers {
                    direction: Direction::Request,
                    declared: declared_by(content_length),
                },
            ),
    {
        if self.request.terminated {
            return Decision::Continue;
        }
        self.limit_content_length(Direction::Request, content_length)
    }

    /// `body_size` more bytes of the request body have arrived.
    pub fn on_http_request_body(&mut self, body_size: usize, _end_of_stream: bool) -> (decision:
        Decision)
        ensures
            (*final(self), decision) == old(self).after(
                Event::Body { direction: Direction::Request, size: body_size as u64 },
            ),
    {
        if self.request.terminated {
            return Decision::Continue;
        }
        let max_size = self.max_request_size();
        match self.request.chunk(max_size, body_size as u64) {
            Verdict::Reject => self.bail_request_payload_too_large(),
            Verdict::Continue => Decision::Continue,
        }
    }

    /// The response headers have arrived; `content_length` is the value of
    /// their `Content-Length`, if they have one.
    pub fn on_http_response_headers(
        &mut self,
        _num_headers: usize,
        _end_of_stream: bool,
        content_length: Option<&str>,
    ) -> (decision: Decision)
        ensures
            (*final(self), decision) == old(self).after(
                Event::Headers {
                    direction: Direction::Response,
                    declared: declared_by(content_length),
                },
            ),
    {
        if self.bailed_out() {
            return Decision::Continue;
        }
        self.limit_content_length(Direction::Response, content_length)
    }

    /// `body_size` more bytes of the response body have arrived.
    pub fn on_http_response_body(&mut self, body_size: usize, _end_of_stream: bool) -> (decision:
        Decision)
        ensures
            (*final(self), decision) == old(self).after(
                Event::Body { direction: Direction::Response, size: body_size as u64 },
            ),
    {
        if self.bailed_out() {
            return Decision::Continue;
        }
        let max_size = self.max_response_size();
        match self.response.chunk(max_size, body_size as u64) {
            Verdict::Reject => self.bail_response_payload_too_large(),
            Verdict::Continue => Decision::Continue,
        }
    }
}

} // verus!
