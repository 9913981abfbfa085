//! The client: a validated base URL, the URLs it asks for, and what it makes
//! of the replies.

use vstd::prelude::*;
use crate::address::{can_be_base, is_base, join_url, parse_url, url_joined, url_parsed};
use crate::air::{air_data_of, air_fields, lemma_missing_member_fails, AirData};
use crate::config::{device_config_of, DeviceConfig, DeviceConfigView};
use crate::error::{Error, ErrorView, Failure, FailureView};
use crate::json::json_document;
use crate::reply::{document_of, succeeded, Reply};

verus! {

/// The path of the latest air-quality sample.
pub const POLL_PATH: &'static str = "/air-data/latest";

/// The path of the device's configuration.
pub const CONFIG_PATH: &'static str = "/settings/config/data";

/// A client of one device's local API.
#[derive(Debug)]
pub struct Awair {
    api_base: String,
}

/// What comes of making a client of the URL `url` in its normal form: a
/// client with that base, unless nothing can be resolved against it.
pub open spec fn admitted(url: Seq<char>) -> Result<Seq<char>, ErrorView> {
    if can_be_base(url) {
        Ok(url)
    } else {
        Err(ErrorView::InvalidBase(url))
    }
}

/// What comes of making a client of the text `input`: it must read as a
/// URL, and that URL must be a base.
pub open spec fn created(input: Seq<char>) -> Result<Seq<char>, ErrorView> {
    match url_parsed(input) {
        Ok(url) => admitted(url),
        Err(error) => Err(ErrorView::InvalidUrl(error)),
    }
}

/// The URL at `path` on the device at `base`.
pub open spec fn target(base: Seq<char>, path: Seq<char>) -> Result<Seq<char>, ErrorView> {
    match url_joined(base, path) {
        Ok(url) => Ok(url),
        Err(error) => Err(ErrorView::InvalidUrl(error)),
    }
}

/// What a poll makes of `reply`: the sample in its document, or the failure
/// as a request error.
pub open spec fn polled(reply: Reply) -> Result<AirData, ErrorView> {
    match document_of(reply) {
        Err(failure) => Err(ErrorView::Request(failure)),
        Ok(document) => match air_data_of(document) {
            Err(error) => Err(ErrorView::Request(FailureView::Schema(error))),
            Ok(sample) => Ok(sample),
        },
    }
}

/// What a read of the configuration makes of `reply`: the configuration in
/// its document, or the failure as a request error.
pub open spec fn configured(reply: Reply) -> Result<DeviceConfigView, ErrorView> {
    match document_of(reply) {
        Err(failure) => Err(ErrorView::Request(failure)),
        Ok(document) => match device_config_of(document) {
            Err(error) => Err(ErrorView::Request(FailureView::Schema(error))),
            Ok(config) => Ok(config),
        },
    }
}

impl Awair {
    #[verifier::type_invariant]
    spec fn is_valid(self) -> bool {
        can_be_base(self.api_base@)
    }

    /// The base URL, in its normal form.
    pub closed spec fn base(self) -> Seq<char> {
        self.api_base@
    }

    /// Makes a client of a URL in its normal form, as [`Awair::new`] does of
    /// the URL it has read.
    pub fn with_base(url: String) -> (outcome: Result<Awair, Error>)
        ensures
            match outcome {
                Ok(client) => admitted(url@) == Ok::<Seq<char>, ErrorView>(client.base()),
                Err(error) => admitted(url@) == Err::<Seq<char>, ErrorView>(error@),
            },
    {
        if is_base(url.as_str()) {
            Ok(Awair { api_base: url })
        } else {
            Err(Error::InvalidBase(url))
        }
    }

    /// Makes a client of the device at `api_base`, such as
    /// `http://192.168.1.10`. Nothing is sent.
    pub fn new(api_base: &str) -> (outcome: Result<Awair, Error>)
        ensures
            match outcome {
                Ok(client) => created(api_base@) == Ok::<Seq<char>, ErrorView>(client.base()),
                Err(error) => created(api_base@) == Err::<Seq<char>, ErrorView>(error@),
            },
    {
        match parse_url(api_base) {
            Ok(url) => Awair::with_base(url),
            Err(error) => Err(Error::InvalidUrl(error)),
        }
    }

    /// The base URL, in its normal form. Relative references can be resolved
    /// against it.
    pub fn api_base(&self) -> (url: &str)
        ensures
            url@ == self.base(),
            can_be_base(url@),
    {
        proof {
            use_type_invariant(self);
        }
        self.api_base.as_str()
    }

    /// The URL to GET for a poll.
    pub fn poll_url(&self) -> (outcome: Result<String, Error>)
        ensures
            match outcome {
                Ok(url) => target(self.base(), POLL_PATH@) == Ok::<Seq<char>, ErrorView>(url@),
                Err(error) => target(self.base(), POLL_PATH@) == Err::<Seq<char>, ErrorView>(error@),
            },
    {
        match join_url(self.api_base.as_str(), POLL_PATH) {
            Ok(url) => Ok(url),
            Err(error) => Err(Error::InvalidUrl(error)),
        }
    }

    /// The URL to GET for the configuration.
    pub fn config_url(&self) -> (outcome: Result<String, Error>)
        ensures
            match outcome {
                Ok(url) => target(self.base(), CONFIG_PATH@) == Ok::<Seq<char>, ErrorView>(url@),
                Err(error) => target(self.base(), CONFIG_PATH@) == Err::<Seq<char>, ErrorView>(error@),
            },
    {
        match join_url(self.api_base.as_str(), CONFIG_PATH) {
            Ok(url) => Ok(url),
            Err(error) => Err(Error::InvalidUrl(error)),
        }
    }

    /// Reads the latest air quality data out of the reply to a GET of
    /// [`Awair::poll_url`].
    pub fn poll(&self, reply: &Reply) -> (outcome: Result<AirData, Error>)
        ensures
            match outcome {
                Ok(sample) => polled(*reply) == Ok::<AirData, ErrorView>(sample),
                Err(error) => polled(*reply) == Err::<AirData, ErrorView>(error@),
            },
    {
        match reply.document() {
            Err(failure) => Err(Error::Request(failure)),
            Ok(document) => match AirData::from_json(&document) {
                Err(error) => Err(Error::Request(Failure::Schema(error))),
                Ok(sample) => Ok(sample),
            },
        }
    }

    /// Reads the device's configuration out of the reply to a GET of
    /// [`Awair::config_url`].
    pub fn config(&self, reply: &Reply) -> (outcome: Result<DeviceConfig, Error>)
        ensures
            match outcome {
                Ok(config) => configured(*reply) == Ok::<DeviceConfigView, ErrorView>(config@),
                Err(error) => configured(*reply) == Err::<DeviceConfigView, ErrorView>(error@),
            },
    {
        match reply.document() {
            Err(failure) => Err(Error::Request(failure)),
            Ok(document) => match DeviceConfig::from_json(&document) {
                Err(error) => Err(Error::Request(Failure::Schema(error))),
                Ok(config) => Ok(config),
            },
        }
    }
}

/// A text that reads as a URL with a `/` after its scheme makes a client,
/// and the client's base is that URL as it was read.
pub proof fn lemma_base_url_is_accepted(input: Seq<char>)
    requires
        url_parsed(input) matches Ok(url) && can_be_base(url),
    ensures
        created(input) == Ok::<Seq<char>, ErrorView>(url_parsed(input)->Ok_0),
{
}

/// A text that reads as a URL without a `/` after its scheme makes no
/// client: the error is `InvalidBase`, with the URL as it was read.
pub proof fn lemma_opaque_url_is_refused(input: Seq<char>)
    requires
        url_parsed(input) matches Ok(url) && !can_be_base(url),
    ensures
        created(input) == Err::<Seq<char>, ErrorView>(ErrorView::InvalidBase(url_parsed(input)->Ok_0)),
{
}

/// A text that does not read as a URL makes no client: the error is
/// `InvalidUrl`, with the parser's error.
pub proof fn lemma_unreadable_url_is_refused(input: Seq<char>)
    requires
        url_parsed(input) is Err,
    ensures
        created(input) == Err::<Seq<char>, ErrorView>(ErrorView::InvalidUrl(url_parsed(input)->Err_0)),
{
}

/// An answer whose status is outside 200 to 299 is a request error that
/// carries the status, whatever the body holds: the body is not decoded.
pub proof fn lemma_failed_status_is_refused(status: u16, body: Vec<u8>)
    requires
        !succeeded(status),
    ensures
        polled(Reply::Answered { status, body }) == Err::<AirData, ErrorView>(
            ErrorView::Request(FailureView::Status(status)),
        ),
        configured(Reply::Answered { status, body }) == Err::<DeviceConfigView, ErrorView>(
            ErrorView::Request(FailureView::Status(status)),
        ),
{
}

/// A successful answer whose document lacks the member of a field of the
/// sample, `co2` for one, is a request error.
pub proof fn lemma_incomplete_sample_is_refused(status: u16, body: Vec<u8>, which: int)
    requires
        succeeded(status),
        json_document(body@) matches Ok(document) && 0 <= which < air_fields().len() && document.member(
            air_fields()[which].0@,
        ) is None,
    ensures
        polled(Reply::Answered { status, body }) matches Err(ErrorView::Request(FailureView::Schema(_))),
{
    lemma_missing_member_fails(json_document(body@)->Ok_0, which);
}

} // verus!
