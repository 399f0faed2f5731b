//! What a process learns from its environment variables, once they have
//! been looked up: whether a variable is set, required or parsed.

use crate::text::{comma_list, debug_quoted, quote, split_list, texts};
use vstd::prelude::*;
use vstd::string::*;

verus! {

/// A variable could not be read; the field is the variable's key.
#[derive(Debug, Clone, Copy, PartialEq, Eq)]
pub struct ReadVarError(pub &'static str);

/// What the environment answered when one key was looked up.
#[derive(Debug)]
pub enum Lookup {
    /// The variable is set, with this content.
    Found(String),
    /// The variable is not set.
    NotPresent,
    /// The variable could not be read: it is not Unicode, or the file that
    /// holds the variables is broken.
    Failed,
}

impl ReadVarError {
    /// The message of the error, for a key given as it stands in quotes.
    pub open spec fn text(quoted_key: Seq<char>) -> Seq<char> {
        "Could not read "@ + quoted_key + " environment variable"@
    }

    /// The message around an already quoted key.
    pub fn message_for(quoted_key: &str) -> (message: String)
        ensures
            message@ == Self::text(quoted_key@),
    {
        let mut message = "Could not read ".to_owned();
        message.append(quoted_key);
        message.append(" environment variable");
        message
    }

    /// The message of the error: it names the key in quotes.
    pub fn to_string(&self) -> (message: String)
        ensures
            message@ == Self::text(debug_quoted(self.0@)),
    {
        let quoted = quote(self.0);
        Self::message_for(quoted.as_str())
    }
}

/// The content of a variable, `None` where it is not set.
pub open spec fn var_spec(key: &'static str, lookup: Lookup) -> Result<
    Option<String>,
    ReadVarError,
> {
    match lookup {
        Lookup::Found(content) => Ok(Some(content)),
        Lookup::NotPresent => Ok(None),
        Lookup::Failed => Err(ReadVarError(key)),
    }
}

/// The content of the variable `key`, `None` where it is not set. Only a
/// variable that could not be read is an error.
pub fn var(key: &'static str, lookup: Lookup) -> (content: Result<Option<String>, ReadVarError>)
    ensures
        content == var_spec(key, lookup),
{
    match lookup {
        Lookup::Found(content) => Ok(Some(content)),
        Lookup::NotPresent => Ok(None),
        Lookup::Failed => Err(ReadVarError(key)),
    }
}

/// What is left of a looked-up value when the variable must be set.
pub open spec fn required_spec<T>(
    res: Result<Option<T>, ReadVarError>,
    key: &'static str,
) -> Result<T, ReadVarError> {
    match res {
        Ok(Some(value)) => Ok(value),
        Ok(None) => Err(ReadVarError(key)),
        Err(error) => Err(error),
    }
}

/// The value of a variable that must be set: a missing one is an error
/// that names `key`, and an error of the lookup is handed on.
pub fn required<T>(res: Result<Option<T>, ReadVarError>, key: &'static str) -> (value: Result<
    T,
    ReadVarError,
>)
    ensures
        value == required_spec(res, key),
{
    match res {
        Ok(Some(value)) => Ok(value),
        Ok(None) => Err(ReadVarError(key)),
        Err(error) => Err(error),
    }
}

/// The content of the variable `key`, which must be set.
pub fn required_var(key: &'static str, lookup: Lookup) -> (content: Result<String, ReadVarError>)
    ensures
        content == required_spec(var_spec(key, lookup), key),
{
    required(var(key, lookup), key)
}

/// Whether `parse` may answer `outcome` when it is given the text `content`.
pub open spec fn parsed_as<R, F: Fn(&str) -> Option<R>>(
    parse: F,
    content: Seq<char>,
    outcome: Option<R>,
) -> bool {
    exists|text: &str| text@ == content && #[trigger] parse.ensures((text,), outcome)
}

/// The parsed content of the variable `key`, `None` where it is not set.
/// A content that `parse` refuses is an error that names `key`.
pub fn var_parsed<R, F>(key: &'static str, lookup: Lookup, parse: F) -> (value: Result<
    Option<R>,
    ReadVarError,
>) where F: Fn(&str) -> Option<R>
    requires
        forall|text: &str| parse.requires((text,)),
    ensures
        lookup is NotPresent ==> value == Ok::<Option<R>, ReadVarError>(None),
        lookup is Failed ==> value == Err::<Option<R>, ReadVarError>(ReadVarError(key)),
        lookup matches Lookup::Found(content) ==> (match value {
            Ok(Some(parsed)) => parsed_as(parse, content@, Some(parsed)),
            Ok(None) => false,
            Err(error) => error == ReadVarError(key) && parsed_as(parse, content@, None),
        }),
{
    match var(key, lookup) {
        Ok(Some(content)) => {
            match parse(content.as_str()) {
                Some(parsed) => Ok(Some(parsed)),
                None => Err(ReadVarError(key)),
            }
        },
        Ok(None) => Ok(None),
        Err(error) => Err(error),
    }
}

/// The parsed content of the variable `key`, which must be set.
pub fn required_var_parsed<R, F>(key: &'static str, lookup: Lookup, parse: F) -> (value: Result<
    R,
    ReadVarError,
>) where F: Fn(&str) -> Option<R>
    requires
        forall|text: &str| parse.requires((text,)),
    ensures
        !(lookup is Found) ==> value == Err::<R, ReadVarError>(ReadVarError(key)),
        lookup matches Lookup::Found(content) ==> (match value {
            Ok(parsed) => parsed_as(parse, content@, Some(parsed)),
            Err(error) => error == ReadVarError(key) && parsed_as(parse, content@, None),
        }),
{
    required(var_parsed(key, lookup, parse), key)
}

/// The fields of a variable that holds a list written with commas. A
/// variable that is not set holds the empty list, and so does an empty one.
pub open spec fn list_spec(key: &'static str, lookup: Lookup) -> Result<
    Seq<Seq<char>>,
    ReadVarError,
> {
    match lookup {
        Lookup::Found(content) => Ok(comma_list(content@)),
        Lookup::NotPresent => Ok(Seq::empty()),
        Lookup::Failed => Err(ReadVarError(key)),
    }
}

/// The variable `key` as a list: its fields between the commas, each
/// without the white space around it. A variable that is not set or is empty
/// is the empty list.
pub fn list(key: &'static str, lookup: Lookup) -> (values: Result<Vec<String>, ReadVarError>)
    ensures
        match values {
            Ok(values) => list_spec(key, lookup) == Ok::<Seq<Seq<char>>, ReadVarError>(
                texts(values@),
            ),
            Err(error) => list_spec(key, lookup) == Err::<Seq<Seq<char>>, ReadVarError>(error),
        },
{
    match var(key, lookup) {
        Ok(Some(content)) => Ok(split_list(content.as_str())),
        Ok(None) => {
            let values: Vec<String> = Vec::new();
            assert(texts(values@) =~= Seq::<Seq<char>>::empty());
            Ok(values)
        },
        Err(error) => Err(error),
    }
}

/// Whether `values` are what `parse` may answer for `fields`, one by one.
pub open spec fn all_parsed<T, F: Fn(&str) -> Option<T>>(
    parse: F,
    fields: Seq<Seq<char>>,
    values: Seq<T>,
) -> bool {
    &&& values.len() == fields.len()
    &&& forall|k: int|
        0 <= k < fields.len() ==> parsed_as(parse, fields[k], Some(#[trigger] values[k]))
}

/// Whether `parse` may refuse one of `fields`.
pub open spec fn one_refused<T, F: Fn(&str) -> Option<T>>(
    parse: F,
    fields: Seq<Seq<char>>,
) -> bool {
    exists|k: int| 0 <= k < fields.len() && parsed_as(parse, #[trigger] fields[k], None::<T>)
}

/// The variable `key` as a list of parsed values: `f` parses each field of
/// the list. A field that `f` refuses is an error that names `key`.
pub fn list_parsed<T, F>(key: &'static str, lookup: Lookup, f: F) -> (values: Result<
    Vec<T>,
    ReadVarError,
>) where F: Fn(&str) -> Option<T>
    requires
        forall|text: &str| f.requires((text,)),
    ensures
        values matches Ok(values) ==> list_spec(key, lookup) matches Ok(fields) && all_parsed(
            f,
            fields,
            values@,
        ),
        values matches Err(error) ==> error == ReadVarError(key),
        values is Err ==> (list_spec(key, lookup) matches Ok(fields) ==> one_refused(f, fields)),
{
    let fields = match list(key, lookup) {
        Ok(fields) => fields,
        Err(error) => { return Err(error); },
    };
    let mut values: Vec<T> = Vec::new();
    let mut at: usize = 0;
    while at < fields.len()
        invariant
            at <= fields.len(),
            values@.len() == at,
            list_spec(key, lookup) == Ok::<Seq<Seq<char>>, ReadVarError>(texts(fields@)),
            forall|text: &str| f.requires((text,)),
            forall|k: int|
                0 <= k < at ==> parsed_as(f, texts(fields@)[k], Some(#[trigger] values@[k])),
        decreases fields.len() - at,
    {
        let field = fields[at].as_str();
        match f(field) {
            Some(value) => {
                values.push(value);
            },
            None => {
                proof {
                    let refused = texts(fields@);
                    assert(refused[at as int] == field@);
                    assert(0 <= at < refused.len() && parsed_as(f, refused[at as int], None::<T>));
                    assert(one_refused(f, refused));
                }
                return Err(ReadVarError(key));
            },
        }
        at += 1;
    }
    assert(all_parsed(f, texts(fields@), values@));
    Ok(values)
}

} // verus!
