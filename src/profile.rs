//! Connection profile settings: output format, service, credentials, and the
//! decisions taken while reading a profile file.
use vstd::prelude::*;
use crate::text::same_text;

verus! {

/// The name under which the default profile is stored.
pub const DEFAULT_PROFILE: &'static str = "default";

/// How command results are printed.
#[derive(Clone, Copy, Debug, PartialEq, Eq, Structural, PartialOrd, Ord)]
pub enum Output {
    Json,
    Plaintext,
}

/// Which cloud the profile talks to.
#[derive(Clone, Copy, Debug, PartialEq, Eq, Structural, PartialOrd, Ord)]
pub enum Service {
    Cloud,
    GovCloud,
}

/// A name that matches no variant.
#[derive(Debug, PartialEq, Eq)]
pub struct UnknownVariant;

pub open spec fn output_name(o: Output) -> Seq<char> {
    match o {
        Output::Json => "json"@,
        Output::Plaintext => "plaintext"@,
    }
}

pub open spec fn service_name(s: Service) -> Seq<char> {
    match s {
        Service::Cloud => "cloud"@,
        Service::GovCloud => "cloudgov"@,
    }
}

impl Output {
    /// The name of the format as stored in a profile.
    pub fn to_string(&self) -> (r: String)
        ensures
            r@ == output_name(*self),
    {
        match self {
            Output::Json => String::from_str("json"),
            Output::Plaintext => String::from_str("plaintext"),
        }
    }

    /// The format of that name, if any.
    pub fn from_name(s: &str) -> (r: Option<Output>)
        ensures
            r matches Some(o) ==> output_name(o) == s@,
            r is None ==> s@ != output_name(Output::Json) && s@ != output_name(Output::Plaintext),
    {
        if same_text(s, "json") {
            Some(Output::Json)
        } else if same_text(s, "plaintext") {
            Some(Output::Plaintext)
        } else {
            None
        }
    }
}

impl Service {
    /// The name of the service as stored in a profile.
    pub fn to_string(&self) -> (r: String)
        ensures
            r@ == service_name(*self),
    {
        match self {
            Service::Cloud => String::from_str("cloud"),
            Service::GovCloud => String::from_str("cloudgov"),
        }
    }

    /// The service of that name, if any.
    pub fn from_name(s: &str) -> (r: Option<Service>)
        ensures
            r matches Some(v) ==> service_name(v) == s@,
            r is None ==> s@ != service_name(Service::Cloud) && s@ != service_name(
                Service::GovCloud,
            ),
    {
        if same_text(s, "cloud") {
            Some(Service::Cloud)
        } else if same_text(s, "cloudgov") {
            Some(Service::GovCloud)
        } else {
            None
        }
    }
}

impl std::str::FromStr for Output {
    type Err = UnknownVariant;

    fn from_str(s: &str) -> Result<Output, UnknownVariant> {
        match Output::from_name(s) {
            Some(o) => Ok(o),
            None => Err(UnknownVariant),
        }
    }
}

impl std::str::FromStr for Service {
    type Err = UnknownVariant;

    fn from_str(s: &str) -> Result<Service, UnknownVariant> {
        match Service::from_name(s) {
            Some(v) => Ok(v),
            None => Err(UnknownVariant),
        }
    }
}

/// A pair of programmatic API keys.
#[derive(Clone, Debug, PartialEq, Eq, PartialOrd, Ord)]
pub struct ApiKeys {
    public: String,
    private: String,
}

/// A pair of OAuth tokens.
#[derive(Clone, Debug, PartialEq, Eq, PartialOrd, Ord)]
pub struct OAuth {
    access_token: String,
    refresh_token: String,
}

impl ApiKeys {
    pub fn new(public: String, private: String) -> (r: ApiKeys)
        ensures
            r.public() == public@,
            r.private() == private@,
    {
        ApiKeys { public, private }
    }

    pub closed spec fn public(&self) -> Seq<char> {
        self.public@
    }

    pub closed spec fn private(&self) -> Seq<char> {
        self.private@
    }

    pub fn public_key(&self) -> (r: &String)
        ensures
            r@ == self.public(),
    {
        &self.public
    }

    pub fn private_key(&self) -> (r: &String)
        ensures
            r@ == self.private(),
    {
        &self.private
    }
}

impl OAuth {
    pub fn new(access_token: String, refresh_token: String) -> (r: OAuth)
        ensures
            r.access() == access_token@,
            r.refresh() == refresh_token@,
    {
        OAuth { access_token, refresh_token }
    }

    pub closed spec fn access(&self) -> Seq<char> {
        self.access_token@
    }

    pub closed spec fn refresh(&self) -> Seq<char> {
        self.refresh_token@
    }

    pub fn access_token(&self) -> (r: &String)
        ensures
            r@ == self.access(),
    {
        &self.access_token
    }

    pub fn refresh_token(&self) -> (r: &String)
        ensures
            r@ == self.refresh(),
    {
        &self.refresh_token
    }
}

/// The credentials a profile authenticates with.
#[derive(Clone, Debug)]
pub enum Auth {
    ApiKeys(ApiKeys),
    OAuth(OAuth),
}

/// Picks a profile's credentials: the API keys when both are present,
/// otherwise the OAuth tokens when both of those are, otherwise none.
pub fn choose_auth(
    public: Option<String>,
    private: Option<String>,
    access_token: Option<String>,
    refresh_token: Option<String>,
) -> (r: Option<Auth>)
    ensures
        public is Some && private is Some ==> (r matches Some(Auth::ApiKeys(k)) && k.public()
            == public->Some_0@ && k.private() == private->Some_0@),
        !(public is Some && private is Some) && access_token is Some && refresh_token is Some
            ==> (r matches Some(Auth::OAuth(t)) && t.access() == access_token->Some_0@
            && t.refresh() == refresh_token->Some_0@),
        !(public is Some && private is Some) && !(access_token is Some && refresh_token is Some)
            ==> r is None,
{
    match (public, private) {
        (Some(public), Some(private)) => Some(Auth::ApiKeys(ApiKeys::new(public, private))),
        _ => match (access_token, refresh_token) {
            (Some(access), Some(refresh)) => Some(Auth::OAuth(OAuth::new(access, refresh))),
            _ => None,
        },
    }
}

/// Where a top-level entry of a profile file goes.
#[derive(Clone, Copy, Debug, PartialEq, Eq, Structural)]
pub enum EntryPlacement {
    /// A table stored under the default profile's name.
    DefaultProfile,
    /// A table stored under any other name: a named profile.
    NamedProfile,
    /// A value that is not a table: kept as it is.
    AdditionalProperty,
}

/// Sorts a top-level entry of a profile file by its key and by whether its
/// value is a table. A non-table value under the default profile's name is
/// refused.
pub fn place_entry(key: &str, is_table: bool) -> (r: Result<
    EntryPlacement,
    ProfileFileTryFromTomlError,
>)
    ensures
        is_table && key@ == DEFAULT_PROFILE@ ==> r == Ok::<
            EntryPlacement,
            ProfileFileTryFromTomlError,
        >(EntryPlacement::DefaultProfile),
        is_table && key@ != DEFAULT_PROFILE@ ==> r == Ok::<
            EntryPlacement,
            ProfileFileTryFromTomlError,
        >(EntryPlacement::NamedProfile),
        !is_table && key@ == DEFAULT_PROFILE@ ==> r matches Err(
            ProfileFileTryFromTomlError::ValueDefaultOfWrongType,
        ),
        !is_table && key@ != DEFAULT_PROFILE@ ==> r == Ok::<
            EntryPlacement,
            ProfileFileTryFromTomlError,
        >(EntryPlacement::AdditionalProperty),
{
    let is_default = same_text(key, DEFAULT_PROFILE);
    if is_table {
        if is_default {
            Ok(EntryPlacement::DefaultProfile)
        } else {
            Ok(EntryPlacement::NamedProfile)
        }
    } else if is_default {
        Err(ProfileFileTryFromTomlError::ValueDefaultOfWrongType)
    } else {
        Ok(EntryPlacement::AdditionalProperty)
    }
}

/// A profile entry whose value has the wrong type.
#[derive(Debug)]
pub struct InvalidEntryTypeError {
    pub key: &'static str,
}

impl InvalidEntryTypeError {
    pub fn message(&self) -> (r: String)
        ensures
            r@ == "the value '"@ + self.key@ + "' has an unexpected type"@,
    {
        let mut m = String::from_str("the value '");
        m.append(self.key);
        m.append("' has an unexpected type");
        m
    }
}

/// Why a profile table could not be read.
#[derive(Debug)]
pub enum ProfileTryFromTomlError {
    ConvertEntry(InvalidEntryTypeError),
}

impl ProfileTryFromTomlError {
    pub fn message(&self) -> (r: String)
        ensures
            r@ == "failed to convert entry"@,
    {
        String::from_str("failed to convert entry")
    }
}

/// Why a profile file could not be read.
#[derive(Debug)]
pub enum ProfileFileTryFromTomlError {
    ValueDefaultOfWrongType,
    ConvertEntry(InvalidEntryTypeError),
    ConvertProfile(ProfileTryFromTomlError),
}

impl ProfileFileTryFromTomlError {
    pub fn message(&self) -> (r: String)
        ensures
            self is ValueDefaultOfWrongType ==> r@
                == "the value 'default' is supposed to be an object"@,
            self is ConvertEntry ==> r@ == "failed to convert entry"@,
            self is ConvertProfile ==> r@ == "failed to convert profile"@,
    {
        match self {
            ProfileFileTryFromTomlError::ValueDefaultOfWrongType => String::from_str(
                "the value 'default' is supposed to be an object",
            ),
            ProfileFileTryFromTomlError::ConvertEntry(_) => String::from_str(
                "failed to convert entry",
            ),
            ProfileFileTryFromTomlError::ConvertProfile(_) => String::from_str(
                "failed to convert profile",
            ),
        }
    }
}

} // verus!
