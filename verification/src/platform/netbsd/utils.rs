//! Result-flavoured reads of the parsed snapshot: the sensor table
//! stores options-shaped data, while the adapter wants a failed read to
//! carry an error describing the expected shape.

use vstd::prelude::*;

use crate::errors::{Error, ErrorKind};
use super::values::{spec_lookup, Dictionary, Value};

verus! {

/// Every message a failed shape conversion can carry.
pub open spec fn spec_conversion_message(m: Seq<char>) -> bool {
    ||| m == "Cannot convert value to Dict"@
    ||| m == "Cannot convert value to slice"@
    ||| m == "Cannot convert value to u64"@
    ||| m == "Cannot convert value to i64"@
    ||| m == "Cannot convert value to bool"@
    ||| m == "Cannot convert value to string"@
}

/// Reading a whole value as a dictionary or as an array of records.
pub trait AsResult: Sized {
    /// The dictionary this value is, if it is one.
    spec fn dict_model(&self) -> Option<Dictionary>;

    /// The records this value holds, if it is an array.
    spec fn slice_model(&self) -> Option<Seq<Value>>;

    fn as_rdict(&self) -> (r: Result<&Dictionary, Error>)
        ensures
            match r {
                Ok(d) => self.dict_model() == Some(*d),
                Err(e) => self.dict_model() is None
                    && e@.kind == ErrorKind::InvalidData
                    && e@.message == "Cannot convert value to Dict"@,
            },
    ;

    fn as_rslice(&self) -> (r: Result<&[Value], Error>)
        ensures
            match r {
                Ok(s) => self.slice_model() == Some(s@),
                Err(e) => self.slice_model() is None
                    && e@.kind == ErrorKind::InvalidData
                    && e@.message == "Cannot convert value to slice"@,
            },
    ;
}

impl AsResult for Value {
    open spec fn dict_model(&self) -> Option<Dictionary> {
        match *self {
            Value::Dict(d) => Some(d),
            _ => None,
        }
    }

    open spec fn slice_model(&self) -> Option<Seq<Value>> {
        match *self {
            Value::Array(items) => Some(items@),
            _ => None,
        }
    }

    fn as_rdict(&self) -> (r: Result<&Dictionary, Error>) {
        match self {
            Value::Dict(d) => Ok(d),
            _ => Err(Error::invalid_data("Cannot convert value to Dict")),
        }
    }

    fn as_rslice(&self) -> (r: Result<&[Value], Error>) {
        match self {
            Value::Array(items) => Ok(items.as_slice()),
            _ => Err(Error::invalid_data("Cannot convert value to slice")),
        }
    }
}

/// Reading one keyed field of a record in an expected shape.
pub trait GetResult {
    /// The dictionary stored under `key`, if any.
    spec fn dict_at(&self, key: Seq<char>) -> Option<Dictionary>;

    /// The unsigned integer stored under `key`, if any fits.
    spec fn u64_at(&self, key: Seq<char>) -> Option<u64>;

    /// The signed integer stored under `key`, if any fits.
    spec fn i64_at(&self, key: Seq<char>) -> Option<i64>;

    /// The boolean stored under `key`, if any.
    spec fn bool_at(&self, key: Seq<char>) -> Option<bool>;

    /// The text stored under `key`, if any.
    spec fn string_at(&self, key: Seq<char>) -> Option<Seq<char>>;

    fn get_rdict(&self, key: &str) -> (r: Result<&Dictionary, Error>)
        ensures
            match r {
                Ok(d) => self.dict_at(key@) == Some(*d),
                Err(e) => self.dict_at(key@) is None
                    && e@.kind == ErrorKind::InvalidData
                    && e@.message == "Cannot convert value to Dict"@,
            },
    ;

    fn get_ru64(&self, key: &str) -> (r: Result<u64, Error>)
        ensures
            match r {
                Ok(v) => self.u64_at(key@) == Some(v),
                Err(e) => self.u64_at(key@) is None
                    && e@.kind == ErrorKind::InvalidData
                    && (e@.message == "Cannot convert value to u64"@
                        || e@.message == "Cannot convert value to Dict"@),
            },
    ;

    fn get_ri64(&self, key: &str) -> (r: Result<i64, Error>)
        ensures
            match r {
                Ok(v) => self.i64_at(key@) == Some(v),
                Err(e) => self.i64_at(key@) is None
                    && e@.kind == ErrorKind::InvalidData
                    && (e@.message == "Cannot convert value to i64"@
                        || e@.message == "Cannot convert value to Dict"@),
            },
    ;

    fn get_rbool(&self, key: &str) -> (r: Result<bool, Error>)
        ensures
            match r {
                Ok(v) => self.bool_at(key@) == Some(v),
                Err(e) => self.bool_at(key@) is None
                    && e@.kind == ErrorKind::InvalidData
                    && (e@.message == "Cannot convert value to bool"@
                        || e@.message == "Cannot convert value to Dict"@),
            },
    ;

    fn get_rstring(&self, key: &str) -> (r: Result<&str, Error>)
        ensures
            match r {
                Ok(s) => self.string_at(key@) == Some(s@),
                Err(e) => self.string_at(key@) is None
                    && e@.kind == ErrorKind::InvalidData
                    && (e@.message == "Cannot convert value to string"@
                        || e@.message == "Cannot convert value to Dict"@),
            },
    ;
}

impl Dictionary {
    /// The dictionary stored under `key`; any other shape names the
    /// expected one exactly.
    pub fn get_rdict(&self, key: &str) -> (r: Result<&Dictionary, Error>)
        ensures
            match r {
                Ok(d) => GetResult::dict_at(self, key@) == Some(*d),
                Err(e) => GetResult::dict_at(self, key@) is None
                    && e@.kind == ErrorKind::InvalidData
                    && e@.message == "Cannot convert value to Dict"@,
            },
    {
        match self.get(key) {
            Some(Value::Dict(d)) => Ok(d),
            _ => Err(Error::invalid_data("Cannot convert value to Dict")),
        }
    }

    /// The unsigned integer stored under `key`; any other shape names
    /// the expected one exactly.
    pub fn get_ru64(&self, key: &str) -> (r: Result<u64, Error>)
        ensures
            match r {
                Ok(v) => GetResult::u64_at(self, key@) == Some(v),
                Err(e) => GetResult::u64_at(self, key@) is None
                    && e@.kind == ErrorKind::InvalidData
                    && e@.message == "Cannot convert value to u64"@,
            },
    {
        match self.get(key) {
            Some(Value::Integer(i)) => {
                if 0 <= *i && *i <= u64::MAX as i128 {
                    Ok(*i as u64)
                } else {
                    Err(Error::invalid_data("Cannot convert value to u64"))
                }
            },
            _ => Err(Error::invalid_data("Cannot convert value to u64")),
        }
    }

    /// The signed integer stored under `key`; any other shape names
    /// the expected one exactly.
    pub fn get_ri64(&self, key: &str) -> (r: Result<i64, Error>)
        ensures
            match r {
                Ok(v) => GetResult::i64_at(self, key@) == Some(v),
                Err(e) => GetResult::i64_at(self, key@) is None
                    && e@.kind == ErrorKind::InvalidData
                    && e@.message == "Cannot convert value to i64"@,
            },
    {
        match self.get(key) {
            Some(Value::Integer(i)) => {
                if i64::MIN as i128 <= *i && *i <= i64::MAX as i128 {
                    Ok(*i as i64)
                } else {
                    Err(Error::invalid_data("Cannot convert value to i64"))
                }
            },
            _ => Err(Error::invalid_data("Cannot convert value to i64")),
        }
    }

    /// The boolean stored under `key`; any other shape names the
    /// expected one exactly.
    pub fn get_rbool(&self, key: &str) -> (r: Result<bool, Error>)
        ensures
            match r {
                Ok(v) => GetResult::bool_at(self, key@) == Some(v),
                Err(e) => GetResult::bool_at(self, key@) is None
                    && e@.kind == ErrorKind::InvalidData
                    && e@.message == "Cannot convert value to bool"@,
            },
    {
        match self.get(key) {
            Some(Value::Boolean(b)) => Ok(*b),
            _ => Err(Error::invalid_data("Cannot convert value to bool")),
        }
    }

    /// The text stored under `key`; any other shape names the expected
    /// one exactly.
    pub fn get_rstring(&self, key: &str) -> (r: Result<&str, Error>)
        ensures
            match r {
                Ok(s) => GetResult::string_at(self, key@) == Some(s@),
                Err(e) => GetResult::string_at(self, key@) is None
                    && e@.kind == ErrorKind::InvalidData
                    && e@.message == "Cannot convert value to string"@,
            },
    {
        match self.get(key) {
            Some(Value::Text(s)) => Ok(s.as_str()),
            _ => Err(Error::invalid_data("Cannot convert value to string")),
        }
    }
}

impl GetResult for Dictionary {
    open spec fn dict_at(&self, key: Seq<char>) -> Option<Dictionary> {
        match spec_lookup(self.entries@, key) {
            Some(Value::Dict(d)) => Some(d),
            _ => None,
        }
    }

    open spec fn u64_at(&self, key: Seq<char>) -> Option<u64> {
        match spec_lookup(self.entries@, key) {
            Some(Value::Integer(i)) => if 0 <= i <= u64::MAX {
                Some(i as u64)
            } else {
                None
            },
            _ => None,
        }
    }

    open spec fn i64_at(&self, key: Seq<char>) -> Option<i64> {
        match spec_lookup(self.entries@, key) {
            Some(Value::Integer(i)) => if i64::MIN <= i <= i64::MAX {
                Some(i as i64)
            } else {
                None
            },
            _ => None,
        }
    }

    open spec fn bool_at(&self, key: Seq<char>) -> Option<bool> {
        match spec_lookup(self.entries@, key) {
            Some(Value::Boolean(b)) => Some(b),
            _ => None,
        }
    }

    open spec fn string_at(&self, key: Seq<char>) -> Option<Seq<char>> {
        match spec_lookup(self.entries@, key) {
            Some(Value::Text(s)) => Some(s@),
            _ => None,
        }
    }

    fn get_rdict(&self, key: &str) -> (r: Result<&Dictionary, Error>) {
        Dictionary::get_rdict(self, key)
    }

    fn get_ru64(&self, key: &str) -> (r: Result<u64, Error>) {
        Dictionary::get_ru64(self, key)
    }

    fn get_ri64(&self, key: &str) -> (r: Result<i64, Error>) {
        Dictionary::get_ri64(self, key)
    }

    fn get_rbool(&self, key: &str) -> (r: Result<bool, Error>) {
        Dictionary::get_rbool(self, key)
    }

    fn get_rstring(&self, key: &str) -> (r: Result<&str, Error>) {
        Dictionary::get_rstring(self, key)
    }
}

impl GetResult for Value {
    open spec fn dict_at(&self, key: Seq<char>) -> Option<Dictionary> {
        match self.dict_model() {
            Some(d) => d.dict_at(key),
            None => None,
        }
    }

    open spec fn u64_at(&self, key: Seq<char>) -> Option<u64> {
        match self.dict_model() {
            Some(d) => d.u64_at(key),
            None => None,
        }
    }

    open spec fn i64_at(&self, key: Seq<char>) -> Option<i64> {
        match self.dict_model() {
            Some(d) => d.i64_at(key),
            None => None,
        }
    }

    open spec fn bool_at(&self, key: Seq<char>) -> Option<bool> {
        match self.dict_model() {
            Some(d) => d.bool_at(key),
            None => None,
        }
    }

    open spec fn string_at(&self, key: Seq<char>) -> Option<Seq<char>> {
        match self.dict_model() {
            Some(d) => d.string_at(key),
            None => None,
        }
    }

    fn get_rdict(&self, key: &str) -> (r: Result<&Dictionary, Error>) {
        match self.as_rdict() {
            Ok(d) => d.get_rdict(key),
            Err(e) => Err(e),
        }
    }

    fn get_ru64(&self, key: &str) -> (r: Result<u64, Error>) {
        match self.as_rdict() {
            Ok(d) => d.get_ru64(key),
            Err(e) => Err(e),
        }
    }

    fn get_ri64(&self, key: &str) -> (r: Result<i64, Error>) {
        match self.as_rdict() {
            Ok(d) => d.get_ri64(key),
            Err(e) => Err(e),
        }
    }

    fn get_rbool(&self, key: &str) -> (r: Result<bool, Error>) {
        match self.as_rdict() {
            Ok(d) => d.get_rbool(key),
            Err(e) => Err(e),
        }
    }

    fn get_rstring(&self, key: &str) -> (r: Result<&str, Error>) {
        match self.as_rdict() {
            Ok(d) => d.get_rstring(key),
            Err(e) => Err(e),
        }
    }
}

} // verus!
