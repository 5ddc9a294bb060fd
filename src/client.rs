use crate::date::CalendarDate;
use crate::envelope::Error;
use crate::signing::{query_view, sign_query, signature_of, Query};
use crate::text::{int_str, nat_str, i64_to_string, u64_to_string};
use vstd::prelude::*;

verus! {

/// What a client holds: each URL and credential, if it was given.
pub struct ClientView {
    pub public_url: Option<Seq<char>>,
    pub private_url: Option<Seq<char>>,
    pub identifier: Option<Seq<char>>,
    pub secret: Option<Seq<char>>,
}

/// An optional string as an optional sequence of characters.
pub open spec fn option_view(o: Option<String>) -> Option<Seq<char>> {
    match o {
        Some(s) => Some(s@),
        None => None,
    }
}

/// Configuration for the public market-data API, the private trade API, or
/// both: base URLs and the account's identifier and secret.
pub struct Client {
    public_url: Option<String>,
    private_url: Option<String>,
    identifier: Option<String>,
    secret: Option<String>,
}

impl View for Client {
    type V = ClientView;

    closed spec fn view(&self) -> ClientView {
        ClientView {
            public_url: option_view(self.public_url),
            private_url: option_view(self.private_url),
            identifier: option_view(self.identifier),
            secret: option_view(self.secret),
        }
    }
}

/// Whether a client can make public requests.
pub open spec fn public_ready(c: ClientView) -> bool {
    c.public_url is Some
}

/// Whether a client can make signed private requests.
pub open spec fn private_ready(c: ClientView) -> bool {
    c.private_url is Some && c.identifier is Some && c.secret is Some
}

/// The path of the ticker of `currency` under a public base URL.
pub open spec fn ticker_url_of(base: Seq<char>, currency: Seq<char>) -> Seq<char> {
    base + "/"@ + currency + "/ticker"@
}

/// The path of one day's summary of `currency` under a public base URL; year,
/// month and day are written in decimal without padding.
pub open spec fn day_summary_url_of(
    base: Seq<char>,
    currency: Seq<char>,
    year: int,
    month: nat,
    day: nat,
) -> Seq<char> {
    base + "/"@ + currency + "/day-summary/"@ + int_str(year) + "/"@ + nat_str(month) + "/"@
        + nat_str(day)
}

/// A private request ready to send: the form parameters go in the POST body,
/// `identifier` in the `TAPI-ID` header and `signature` in the `TAPI-MAC` header.
pub struct SignedRequest {
    pub url: String,
    pub identifier: String,
    pub signature: String,
    pub params: Query,
}

fn clone_some(o: &Option<String>) -> (r: String)
    requires
        o is Some,
    ensures
        r@ == o->Some_0@,
{
    match o {
        Some(s) => s.clone(),
        None => String::new(),
    }
}

impl Client {
    /// A client for both the public and the private API.
    pub fn init(public_url: String, private_url: String, identifier: String, secret: String) -> (r:
        Self)
        ensures
            r@ == (ClientView {
                public_url: Some(public_url@),
                private_url: Some(private_url@),
                identifier: Some(identifier@),
                secret: Some(secret@),
            }),
    {
        Client {
            public_url: Some(public_url),
            private_url: Some(private_url),
            identifier: Some(identifier),
            secret: Some(secret),
        }
    }

    /// A client for the public API only.
    pub fn init_public(url: String) -> (r: Self)
        ensures
            r@ == (ClientView {
                public_url: Some(url@),
                private_url: None,
                identifier: None,
                secret: None,
            }),
    {
        Client { public_url: Some(url), private_url: None, identifier: None, secret: None }
    }

    /// A client for the private API only.
    pub fn init_private(url: String, identifier: String, secret: String) -> (r: Self)
        ensures
            r@ == (ClientView {
                public_url: None,
                private_url: Some(url@),
                identifier: Some(identifier@),
                secret: Some(secret@),
            }),
    {
        Client {
            public_url: None,
            private_url: Some(url),
            identifier: Some(identifier),
            secret: Some(secret),
        }
    }

    /// The public base URL.
    pub fn public_url(&self) -> (r: String)
        requires
            self@.public_url is Some,
        ensures
            r@ == self@.public_url->Some_0,
    {
        clone_some(&self.public_url)
    }

    /// The private base URL.
    pub fn private_url(&self) -> (r: String)
        requires
            self@.private_url is Some,
        ensures
            r@ == self@.private_url->Some_0,
    {
        clone_some(&self.private_url)
    }

    /// The account identifier.
    pub fn identifier(&self) -> (r: String)
        requires
            self@.identifier is Some,
        ensures
            r@ == self@.identifier->Some_0,
    {
        clone_some(&self.identifier)
    }

    /// The account secret.
    pub fn secret(&self) -> (r: String)
        requires
            self@.secret is Some,
        ensures
            r@ == self@.secret->Some_0,
    {
        clone_some(&self.secret)
    }

    /// Signs `params` with the account secret.
    pub fn sign(&self, params: &Query) -> (r: String)
        requires
            self@.secret is Some,
        ensures
            r@ == signature_of(self@.secret->Some_0, query_view(*params)),
    {
        let secret = self.secret();
        sign_query(secret.as_str(), params)
    }

    /// The URL of the ticker of `currency`.
    pub fn ticker_url(&self, currency: &str) -> (r: Result<String, Error>)
        ensures
            public_ready(self@) ==> (r matches Ok(u) && u@ == ticker_url_of(
                self@.public_url->Some_0,
                currency@,
            )),
            !public_ready(self@) ==> r matches Err(Error::NotConfigured),
    {
        match &self.public_url {
            None => Err(Error::NotConfigured),
            Some(base) => {
                let mut u = base.clone();
                u.append("/");
                u.append(currency);
                u.append("/ticker");
                Ok(u)
            },
        }
    }

    /// The URL of the summary of `currency` on `date`.
    pub fn day_summary_url(&self, currency: &str, date: &CalendarDate) -> (r: Result<
        String,
        Error,
    >)
        ensures
            public_ready(self@) ==> (r matches Ok(u) && u@ == day_summary_url_of(
                self@.public_url->Some_0,
                currency@,
                date.year as int,
                date.month as nat,
                date.day as nat,
            )),
            !public_ready(self@) ==> r matches Err(Error::NotConfigured),
    {
        match &self.public_url {
            None => Err(Error::NotConfigured),
            Some(base) => {
                let mut u = base.clone();
                u.append("/");
                u.append(currency);
                u.append("/day-summary/");
                let year = i64_to_string(date.year as i64);
                u.append(year.as_str());
                u.append("/");
                let month = u64_to_string(date.month as u64);
                u.append(month.as_str());
                u.append("/");
                let day = u64_to_string(date.day as u64);
                u.append(day.as_str());
                Ok(u)
            },
        }
    }

    /// Signs `params` and pairs them with the private URL and the identifier.
    pub fn signed_request(&self, params: Query) -> (r: Result<SignedRequest, Error>)
        ensures
            private_ready(self@) ==> (r matches Ok(s) && s.url@ == self@.private_url->Some_0
                && s.identifier@ == self@.identifier->Some_0 && s.signature@ == signature_of(
                self@.secret->Some_0,
                query_view(params),
            ) && s.params == params),
            !private_ready(self@) ==> r matches Err(Error::NotConfigured),
    {
        if self.private_url.is_none() || self.identifier.is_none() || self.secret.is_none() {
            return Err(Error::NotConfigured);
        }
        let signature = self.sign(&params);
        Ok(SignedRequest {
            url: self.private_url(),
            identifier: self.identifier(),
            signature,
            params,
        })
    }
}

} // verus!
