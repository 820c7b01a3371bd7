//! The interface of request types that turn themselves into URLs, and the
//! reading of a request back from its query values: a map from field name to
//! the values given for it.
use vstd::prelude::*;
use url::{ParseError, Url};

verus! {

/// A request type that renders itself as a URL under a base URL.
pub trait AsUrl {
    fn as_url(&self, base_url: &str) -> Result<Url, ParseError>;
}

/// Why query values could not be read back into a request.
#[derive(Debug, PartialEq, Eq)]
pub enum TryFromMapError {
    /// A required field has no entry.
    MissingField(String),
    /// A required field has an entry without values.
    NoValuesInField(String),
    /// A value of the field does not parse.
    ParseError { field: String, value: String },
}

impl TryFromMapError {
    pub fn message(&self) -> (r: String)
        ensures
            self matches TryFromMapError::MissingField(f) ==> r@ == "Missing field: "@ + f@,
            self matches TryFromMapError::NoValuesInField(f) ==> r@ == "Field '"@ + f@
                + "' exists but contains no values"@,
            self matches TryFromMapError::ParseError { field, value } ==> r@
                == "Failed to parse field '"@ + field@ + "' with value '"@ + value@ + "'"@,
    {
        match self {
            TryFromMapError::MissingField(f) => {
                let mut m = String::from_str("Missing field: ");
                m.append(f.as_str());
                m
            },
            TryFromMapError::NoValuesInField(f) => {
                let mut m = String::from_str("Field '");
                m.append(f.as_str());
                m.append("' exists but contains no values");
                m
            },
            TryFromMapError::ParseError { field, value } => {
                let mut m = String::from_str("Failed to parse field '");
                m.append(field.as_str());
                m.append("' with value '");
                m.append(value.as_str());
                m.append("'");
                m
            },
        }
    }
}

/// The value of a required single-valued field: the first of its values.
/// Fails with `MissingField` when the field has no entry, and with
/// `NoValuesInField` when its entry holds no value.
pub fn required_value<'a>(field: &str, entry: Option<&'a Vec<String>>) -> (r: Result<
    &'a String,
    TryFromMapError,
>)
    ensures
        entry is None ==> (r matches Err(TryFromMapError::MissingField(f)) && f@ == field@),
        entry is Some && entry->Some_0@.len() == 0 ==> (r matches Err(
            TryFromMapError::NoValuesInField(f),
        ) && f@ == field@),
        entry is Some && entry->Some_0@.len() > 0 ==> (r matches Ok(s) && *s
            == entry->Some_0@[0]),
{
    match entry {
        None => Err(TryFromMapError::MissingField(String::from_str(field))),
        Some(values) => {
            if values.len() == 0 {
                Err(TryFromMapError::NoValuesInField(String::from_str(field)))
            } else {
                Ok(&values[0])
            }
        },
    }
}

/// The values of a required list field, possibly none. Fails with
/// `MissingField` when the field has no entry.
pub fn required_values<'a>(field: &str, entry: Option<&'a Vec<String>>) -> (r: Result<
    &'a Vec<String>,
    TryFromMapError,
>)
    ensures
        entry is None ==> (r matches Err(TryFromMapError::MissingField(f)) && f@ == field@),
        entry is Some ==> (r matches Ok(w) && w == entry->Some_0),
{
    match entry {
        None => Err(TryFromMapError::MissingField(String::from_str(field))),
        Some(values) => Ok(values),
    }
}

/// The value of an optional single-valued field: the first of its values, or
/// nothing when the field has no entry or an empty one.
pub fn optional_value<'a>(entry: Option<&'a Vec<String>>) -> (r: Option<&'a String>)
    ensures
        entry is Some && entry->Some_0@.len() > 0 ==> (r matches Some(s) && *s
            == entry->Some_0@[0]),
        !(entry is Some && entry->Some_0@.len() > 0) ==> r is None,
{
    match entry {
        Some(values) => {
            if values.len() == 0 {
                None
            } else {
                Some(&values[0])
            }
        },
        None => None,
    }
}

/// The values of an optional list field, or nothing when the field has no
/// entry or an empty one.
pub fn optional_values<'a>(entry: Option<&'a Vec<String>>) -> (r: Option<&'a Vec<String>>)
    ensures
        entry is Some && entry->Some_0@.len() > 0 ==> (r matches Some(w) && w
            == entry->Some_0),
        !(entry is Some && entry->Some_0@.len() > 0) ==> r is None,
{
    match entry {
        Some(values) => {
            if values.len() == 0 {
                None
            } else {
                Some(values)
            }
        },
        None => None,
    }
}

/// The error for a value of `field` that does not parse.
pub fn parse_failure(field: &str, value: &String) -> (r: TryFromMapError)
    ensures
        r matches TryFromMapError::ParseError { field: f, value: v } && f@ == field@ && v@
            == value@,
{
    TryFromMapError::ParseError { field: String::from_str(field), value: value.clone() }
}

} // verus!
