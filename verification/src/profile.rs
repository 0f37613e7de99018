use vstd::prelude::*;
use crate::header::{entries, names, ordered, sort_headers, Entry, Header};
use crate::http2::{Http2Preferences, Http2Settings};
use crate::tls::{TlsPreferences, TlsSettings};

verus! {

/// What an impersonation profile says, as plain mathematical values.
pub struct Profile {
    /// The TLS preferences.
    pub tls: TlsPreferences,
    /// The HTTP/2 preferences.
    pub http2: Http2Preferences,
    /// The headers sent with every request, as the profile holds them.
    pub headers: Seq<Entry>,
    /// The names that govern the order in which headers are written.
    pub headers_order: Seq<Seq<char>>,
}

/// An impersonation profile while it is still being put together.
#[derive(Debug)]
pub struct ImpersonateSettingsBuilder {
    tls: TlsSettings,
    http2: Http2Settings,
    headers: Vec<Header>,
    headers_order: Vec<String>,
}

impl View for ImpersonateSettingsBuilder {
    type V = Profile;

    closed spec fn view(&self) -> Profile {
        Profile {
            tls: self.tls@,
            http2: self.http2@,
            headers: entries(self.headers@),
            headers_order: names(self.headers_order@),
        }
    }
}

impl ImpersonateSettingsBuilder {
    /// Sets the headers sent with every request.
    pub fn headers(self, headers: Vec<Header>) -> (b: Self)
        ensures
            b@ == (Profile { headers: entries(headers@), ..self@ }),
    {
        ImpersonateSettingsBuilder { headers, ..self }
    }

    /// Sets the names that govern the order in which headers are written.
    pub fn headers_order(self, order: Vec<String>) -> (b: Self)
        ensures
            b@ == (Profile { headers_order: names(order@), ..self@ }),
    {
        ImpersonateSettingsBuilder { headers_order: order, ..self }
    }

    /// Freezes the profile.
    pub fn build(self) -> (profile: ImpersonateSettings)
        ensures
            profile@ == self@,
    {
        ImpersonateSettings {
            tls: self.tls,
            http2: self.http2,
            headers: self.headers,
            headers_order: self.headers_order,
        }
    }
}

/// An impersonation profile: frozen TLS and HTTP/2 preferences, the headers
/// sent with every request, and the order in which headers are written.
#[derive(Debug)]
pub struct ImpersonateSettings {
    tls: TlsSettings,
    http2: Http2Settings,
    headers: Vec<Header>,
    headers_order: Vec<String>,
}

impl View for ImpersonateSettings {
    type V = Profile;

    closed spec fn view(&self) -> Profile {
        Profile {
            tls: self.tls@,
            http2: self.http2@,
            headers: entries(self.headers@),
            headers_order: names(self.headers_order@),
        }
    }
}

impl ImpersonateSettings {
    /// Starts a profile from frozen TLS and HTTP/2 preferences, with no
    /// headers and no header order.
    pub fn builder(tls: TlsSettings, http2: Http2Settings) -> (b: ImpersonateSettingsBuilder)
        ensures
            b@ == (Profile {
                tls: tls@,
                http2: http2@,
                headers: Seq::empty(),
                headers_order: Seq::empty(),
            }),
    {
        let b = ImpersonateSettingsBuilder {
            tls,
            http2,
            headers: Vec::new(),
            headers_order: Vec::new(),
        };
        assert(entries(b.headers@) =~= Seq::empty());
        assert(names(b.headers_order@) =~= Seq::empty());
        b
    }

    /// The TLS preferences.
    pub fn tls(&self) -> (r: &TlsSettings)
        ensures
            r@ == self@.tls,
    {
        &self.tls
    }

    /// The HTTP/2 preferences.
    pub fn http2(&self) -> (r: &Http2Settings)
        ensures
            r@ == self@.http2,
    {
        &self.http2
    }

    /// The headers sent with every request, as the profile holds them.
    pub fn headers(&self) -> (r: &Vec<Header>)
        ensures
            entries(r@) == self@.headers,
    {
        &self.headers
    }

    /// The names that govern the order in which headers are written.
    pub fn headers_order(&self) -> (r: &Vec<String>)
        ensures
            names(r@) == self@.headers_order,
    {
        &self.headers_order
    }

    /// The headers sent with every request, in the order in which they are
    /// written.
    pub fn ordered_headers(&self) -> (sorted: Vec<Header>)
        ensures
            entries(sorted@) == ordered(self@.headers, self@.headers_order),
    {
        sort_headers(&self.headers, &self.headers_order)
    }
}

} // verus!
