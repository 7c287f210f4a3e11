use vstd::prelude::*;
use vstd::string::*;

use crate::error::DoiError;
use crate::metadata::text_of;

verus! {

/// ureq's HTTP agent, carried by each identifier.
#[verifier::external_type_specification]
#[verifier::external_body]
pub struct ExAgent(ureq::Agent);

/// ureq's builder of an agent.
#[verifier::external_type_specification]
#[verifier::external_body]
pub struct ExAgentBuilder(ureq::AgentBuilder);

/// ureq's proxy settings, read from a proxy URL.
#[verifier::external_type_specification]
#[verifier::external_body]
pub struct ExProxy(ureq::Proxy);

/// ureq's error, returned when a proxy URL cannot be read.
#[verifier::external_type_specification]
#[verifier::external_body]
pub struct ExError(ureq::Error);

/// Relies on ureq::AgentBuilder::new: a builder with ureq's default settings.
pub assume_specification[ ureq::AgentBuilder::new ]() -> ureq::AgentBuilder;

/// Relies on ureq::AgentBuilder::proxy: the agent will connect through `proxy`.
pub assume_specification[ ureq::AgentBuilder::proxy ](
    builder: ureq::AgentBuilder,
    proxy: ureq::Proxy,
) -> ureq::AgentBuilder;

/// Relies on ureq::AgentBuilder::try_proxy_from_env: whether the agent looks
/// for a proxy in the environment when no proxy is set.
pub assume_specification[ ureq::AgentBuilder::try_proxy_from_env ](
    builder: ureq::AgentBuilder,
    do_try: bool,
) -> ureq::AgentBuilder;

/// Relies on ureq::AgentBuilder::build: the agent with the builder's settings.
pub assume_specification[ ureq::AgentBuilder::build ](builder: ureq::AgentBuilder) -> ureq::Agent;

/// Relies on the `Clone` impl of ureq::Agent: another handle on the same agent.
pub assume_specification[ <ureq::Agent as Clone>::clone ](agent: &ureq::Agent) -> ureq::Agent;

/// Relies on the `Clone` impl of ureq::Proxy: a copy of the proxy settings.
pub assume_specification[ <ureq::Proxy as Clone>::clone ](proxy: &ureq::Proxy) -> ureq::Proxy;

/// Whether ureq accepts `url` as a proxy URL.
pub uninterp spec fn proxy_url_accepted(url: Seq<char>) -> bool;

/// Relies on ureq::Proxy::new: reads a proxy URL of the form
/// `<protocol>://<user>:<password>@<host>:<port>`; whether it succeeds depends
/// on the URL alone.
#[verifier::external_body]
fn parse_proxy(url: &str) -> (r: Result<ureq::Proxy, ureq::Error>)
    ensures
        r is Ok <==> proxy_url_accepted(url@),
{
    ureq::Proxy::new(url)
}

/// The lower-case form of a text, as `str::to_lowercase` gives it.
pub uninterp spec fn lower_of(s: Seq<char>) -> Seq<char>;

/// Relies on str::to_lowercase: the result depends on the characters alone.
#[verifier::external_body]
fn lowercase(s: &str) -> (r: String)
    ensures
        r@ == lower_of(s@),
{
    s.to_lowercase()
}

/// The URL of a DOI at the resolver service: the DOI appended to
/// `https://doi.org/`, with no escaping.
pub open spec fn resolver_url(doi: Seq<char>) -> Seq<char> {
    "https://doi.org/"@ + doi
}

/// The value of a DOI that may be unset, or `NotSet`.
pub open spec fn required(doi: Option<Seq<char>>) -> Result<Seq<char>, DoiError> {
    match doi {
        Some(d) => Ok(d),
        None => Err(DoiError::NotSet),
    }
}

/// The text of a string result.
pub open spec fn text_result(r: Result<String, DoiError>) -> Result<Seq<char>, DoiError> {
    match r {
        Ok(s) => Ok(s@),
        Err(e) => Err(e),
    }
}

/// Two DOI values are the same when both are unset, or both are set and
/// agree once put in lower case.
pub open spec fn same_doi(a: Option<Seq<char>>, b: Option<Seq<char>>) -> bool {
    match (a, b) {
        (Some(x), Some(y)) => lower_of(x) == lower_of(y),
        (None, None) => true,
        _ => false,
    }
}

/// Digital Object Identifier (DOI): a unique identifier of a digital object
/// such as a document, with the HTTP agent used to reach the resolver.
#[derive(Debug, Clone)]
pub struct Doi {
    /// The DOI, or `None` while it is unset.
    pub doi: Option<String>,
    agent: ureq::Agent,
}

impl View for Doi {
    type V = Option<Seq<char>>;

    closed spec fn view(&self) -> Option<Seq<char>> {
        text_of(self.doi)
    }
}

impl Doi {
    /// An identifier holding `doi` as given: no case folding, no trimming.
    pub fn new(doi: &str) -> (r: Self)
        ensures
            r@ == Some(doi@),
    {
        Doi { doi: Some(doi.to_string()), agent: DoiBuilder::default_agent() }
    }

    /// Whether the DOI is set.
    pub fn is_set(&self) -> (r: bool)
        ensures
            r == self@ is Some,
    {
        self.doi.is_some()
    }

    /// The DOI, or `NotSet` when it is unset.
    pub fn get_doi(&self) -> (r: Result<String, DoiError>)
        ensures
            text_result(r) == required(self@),
    {
        match &self.doi {
            Some(doi) => Ok(doi.clone()),
            None => Err(DoiError::NotSet),
        }
    }

    /// Replaces the DOI with `doi`.
    pub fn set_doi(&mut self, doi: &str)
        ensures
            final(self)@ == Some(doi@),
    {
        self.doi = Some(doi.to_string());
    }

    /// The resolver URL of the DOI, `https://doi.org/<DOI>`, or `NotSet` when
    /// the DOI is unset.
    pub fn https_url(&self) -> (r: Result<String, DoiError>)
        ensures
            text_result(r) == match self@ {
                Some(d) => Ok(resolver_url(d)),
                None => Err::<Seq<char>, DoiError>(DoiError::NotSet),
            },
    {
        match &self.doi {
            Some(doi) => {
                let mut url = String::from_str("https://doi.org/");
                url.append(doi.as_str());
                Ok(url)
            },
            None => Err(DoiError::NotSet),
        }
    }

    /// The HTTP agent through which the resolver is reached.
    pub fn agent(&self) -> &ureq::Agent {
        &self.agent
    }
}

impl Default for Doi {
    /// An identifier whose DOI is unset.
    fn default() -> (r: Self)
        ensures
            r@ is None,
    {
        Doi { doi: None, agent: DoiBuilder::default_agent() }
    }
}

impl PartialEq for Doi {
    /// Two identifiers are equal when their DOIs are the same up to case, or
    /// when both are unset.
    fn eq(&self, other: &Doi) -> (r: bool) {
        match (&self.doi, &other.doi) {
            (Some(a), Some(b)) => lowercase(a.as_str()) == lowercase(b.as_str()),
            (None, None) => true,
            _ => false,
        }
    }
}

impl vstd::std_specs::cmp::PartialEqSpecImpl for Doi {
    open spec fn obeys_eq_spec() -> bool {
        true
    }

    open spec fn eq_spec(&self, other: &Doi) -> bool {
        same_doi(self@, other@)
    }
}

/// What an identifier is made from, `get_doi` hands back: an identifier
/// whose DOI is `s`, as `Doi::new` makes it, gives `Ok` with `s`.
pub proof fn lemma_get_returns_stored_doi(d: Doi, s: Seq<char>)
    requires
        d@ == Some(s),
    ensures
        required(d@) == Ok::<Seq<char>, DoiError>(s),
{
}

/// Equality of identifiers (`==` is `same_doi` of their DOIs): two unset identifiers are equal, a set and an
/// unset one never are, two set ones are equal exactly when their DOIs agree
/// in lower case, and every identifier equals itself.
pub proof fn lemma_doi_equality(a: Doi, b: Doi)
    ensures
        a@ is None && b@ is None ==> same_doi(a@, b@),
        (a@ is Some) != (b@ is Some) ==> !same_doi(a@, b@),
        a@ is Some && b@ is Some ==> (same_doi(a@, b@) <==> lower_of(a@->0) == lower_of(b@->0)),
        same_doi(a@, a@),
{
}

/// Builder of a [`Doi`] with its proxy settings.
pub struct DoiBuilder {
    doi: Option<String>,
    env_proxy: bool,
    proxy: Option<ureq::Proxy>,
}

impl DoiBuilder {
    /// The DOI the built identifier will hold.
    pub closed spec fn doi_value(&self) -> Option<Seq<char>> {
        text_of(self.doi)
    }

    /// Whether the agent will look for a proxy in the environment, when no
    /// proxy is set explicitly.
    pub closed spec fn env_proxy_value(&self) -> bool {
        self.env_proxy
    }

    /// Whether a proxy is set explicitly; it overrides the environment.
    pub closed spec fn has_proxy(&self) -> bool {
        self.proxy is Some
    }

    /// A builder with the DOI unset, the environment's proxy settings honoured
    /// and no explicit proxy.
    pub fn new() -> (r: Self)
        ensures
            r.doi_value() is None,
            r.env_proxy_value(),
            !r.has_proxy(),
    {
        DoiBuilder { doi: None, env_proxy: true, proxy: None }
    }

    /// Sets the DOI.
    pub fn doi(&mut self, doi: &str) -> (r: &mut Self)
        ensures
            r.doi_value() == Some(doi@),
            r.env_proxy_value() == old(self).env_proxy_value(),
            r.has_proxy() == old(self).has_proxy(),
            *final(self) == *final(r),
    {
        self.doi = Some(doi.to_string());
        self
    }

    /// Sets whether to honour the environment's proxy settings; an explicit
    /// proxy overrides this.
    pub fn env_proxy(&mut self, env_proxy: bool) -> (r: &mut Self)
        ensures
            r.doi_value() == old(self).doi_value(),
            r.env_proxy_value() == env_proxy,
            r.has_proxy() == old(self).has_proxy(),
            *final(self) == *final(r),
    {
        self.env_proxy = env_proxy;
        self
    }

    /// Sets the proxy explicitly from its URL, or fails with `InvalidProxy`
    /// when ureq does not accept the URL, leaving the builder as it was.
    pub fn proxy(&mut self, proxy: &str) -> (r: Result<&mut Self, DoiError>)
        ensures
            r is Ok <==> proxy_url_accepted(proxy@),
            r matches Ok(b) ==> b.doi_value() == old(self).doi_value() && b.env_proxy_value()
                == old(self).env_proxy_value() && b.has_proxy() && *final(self) == *final(b),
            r matches Err(e) ==> e == DoiError::InvalidProxy && *final(self) == *old(self),
    {
        match parse_proxy(proxy) {
            Ok(p) => {
                self.proxy = Some(p);
                Ok(self)
            },
            Err(_) => Err(DoiError::InvalidProxy),
        }
    }

    /// The agent of a new identifier: it honours the environment's proxy
    /// settings.
    pub fn default_agent() -> ureq::Agent {
        ureq::AgentBuilder::new().try_proxy_from_env(true).build()
    }

    /// The identifier with the builder's DOI, and an agent that connects
    /// through the explicit proxy when one is set, and otherwise honours the
    /// environment's proxy settings or not, as set.
    pub fn build(&self) -> (r: Doi)
        ensures
            r@ == self.doi_value(),
    {
        let agent = match &self.proxy {
            Some(proxy) => ureq::AgentBuilder::new().proxy(proxy.clone()).build(),
            None => ureq::AgentBuilder::new().try_proxy_from_env(self.env_proxy).build(),
        };
        let doi = match &self.doi {
            Some(d) => Some(d.clone()),
            None => None,
        };
        Doi { doi, agent }
    }
}

impl Default for DoiBuilder {
    /// The same builder as [`DoiBuilder::new`].
    fn default() -> (r: Self)
        ensures
            r.doi_value() is None,
            r.env_proxy_value(),
            !r.has_proxy(),
    {
        DoiBuilder::new()
    }
}

} // verus!
