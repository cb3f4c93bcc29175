use vstd::prelude::*;
use vstd::string::*;

use crate::result::{Error, ErrorKind, Result};

verus! {

/// The closed set of stream kinds, each with a one-byte code and a name.
#[derive(Clone, Copy, Debug, PartialEq, Eq, Hash, Structural)]
pub enum StreamType {
    Tile,
    Caip10Link,
    Model,
    Mid,
    Unloadable,
}

impl StreamType {
    /// The numeric code of the stream type.
    pub open spec fn spec_code(self) -> u8 {
        match self {
            StreamType::Tile => 0,
            StreamType::Caip10Link => 1,
            StreamType::Model => 2,
            StreamType::Mid => 3,
            StreamType::Unloadable => 4,
        }
    }

    /// The stream type with the given code, if there is one.
    pub open spec fn spec_from_code(code: u8) -> Option<StreamType> {
        if code == 0 {
            Some(StreamType::Tile)
        } else if code == 1 {
            Some(StreamType::Caip10Link)
        } else if code == 2 {
            Some(StreamType::Model)
        } else if code == 3 {
            Some(StreamType::Mid)
        } else if code == 4 {
            Some(StreamType::Unloadable)
        } else {
            None
        }
    }

    /// The canonical name of the stream type.
    pub open spec fn spec_name(self) -> Seq<char> {
        match self {
            StreamType::Tile => "tile"@,
            StreamType::Caip10Link => "caip10-link"@,
            StreamType::Model => "model"@,
            StreamType::Mid => "MID"@,
            StreamType::Unloadable => "UNLOADABLE"@,
        }
    }

    /// The stream type whose canonical name is exactly `name`, if there is one.
    pub open spec fn spec_from_name(name: Seq<char>) -> Option<StreamType> {
        if name == "tile"@ {
            Some(StreamType::Tile)
        } else if name == "caip10-link"@ {
            Some(StreamType::Caip10Link)
        } else if name == "model"@ {
            Some(StreamType::Model)
        } else if name == "MID"@ {
            Some(StreamType::Mid)
        } else if name == "UNLOADABLE"@ {
            Some(StreamType::Unloadable)
        } else {
            None
        }
    }

    pub fn to_code(&self) -> (r: u8)
        ensures
            r == self.spec_code(),
    {
        match self {
            StreamType::Tile => 0,
            StreamType::Caip10Link => 1,
            StreamType::Model => 2,
            StreamType::Mid => 3,
            StreamType::Unloadable => 4,
        }
    }

    /// Looks up a stream type by its code.
    pub fn from_code(code: u8) -> (r: Result<StreamType>)
        ensures
            match r {
                Ok(t) => StreamType::spec_from_code(code) == Some(t),
                Err(e) => StreamType::spec_from_code(code) is None && e@ == ErrorKind::InvalidStreamTypeIndex(code),
            },
    {
        match StreamType::try_from_code(code) {
            Some(t) => Ok(t),
            None => Err(Error::InvalidStreamTypeIndex(code)),
        }
    }

    fn try_from_code(code: u8) -> (r: Option<StreamType>)
        ensures
            r == StreamType::spec_from_code(code),
    {
        if code == 0 {
            Some(StreamType::Tile)
        } else if code == 1 {
            Some(StreamType::Caip10Link)
        } else if code == 2 {
            Some(StreamType::Model)
        } else if code == 3 {
            Some(StreamType::Mid)
        } else if code == 4 {
            Some(StreamType::Unloadable)
        } else {
            None
        }
    }

    pub fn to_name(&self) -> (r: &'static str)
        ensures
            r@ == self.spec_name(),
    {
        match self {
            StreamType::Tile => "tile",
            StreamType::Caip10Link => "caip10-link",
            StreamType::Model => "model",
            StreamType::Mid => "MID",
            StreamType::Unloadable => "UNLOADABLE",
        }
    }

    /// Looks up a stream type by its exact (case-sensitive) name.
    pub fn from_name(name: &str) -> (r: Result<StreamType>)
        ensures
            match r {
                Ok(t) => StreamType::spec_from_name(name@) == Some(t),
                Err(e) => StreamType::spec_from_name(name@) is None && e@ == ErrorKind::InvalidStreamTypeName(name@),
            },
    {
        match StreamType::try_from_name(name) {
            Some(t) => Ok(t),
            None => Err(Error::InvalidStreamTypeName(String::from_str(name))),
        }
    }

    fn try_from_name(name: &str) -> (r: Option<StreamType>)
        ensures
            r == StreamType::spec_from_name(name@),
    {
        if str_eq(name, "tile") {
            Some(StreamType::Tile)
        } else if str_eq(name, "caip10-link") {
            Some(StreamType::Caip10Link)
        } else if str_eq(name, "model") {
            Some(StreamType::Model)
        } else if str_eq(name, "MID") {
            Some(StreamType::Mid)
        } else if str_eq(name, "UNLOADABLE") {
            Some(StreamType::Unloadable)
        } else {
            None
        }
    }
}

impl core::str::FromStr for StreamType {
    type Err = Error;

    fn from_str(s: &str) -> (r: Result<StreamType>)
        ensures
            match r {
                Ok(t) => StreamType::spec_from_name(s@) == Some(t),
                Err(e) => StreamType::spec_from_name(s@) is None && e@ == ErrorKind::InvalidStreamTypeName(s@),
            },
    {
        StreamType::from_name(s)
    }
}

/// Character-wise equality of two strings.
pub fn str_eq(a: &str, b: &str) -> (r: bool)
    ensures
        r == (a@ == b@),
{
    let n = a.unicode_len();
    if n != b.unicode_len() {
        return false;
    }
    let mut i: usize = 0;
    while i < n
        invariant
            n == a@.len(),
            n == b@.len(),
            i <= n,
            a@.subrange(0, i as int) == b@.subrange(0, i as int),
        decreases n - i,
    {
        if a.get_char(i) != b.get_char(i) {
            return false;
        }
        assert(a@.subrange(0, i + 1) == a@.subrange(0, i as int).push(a@[i as int]));
        assert(b@.subrange(0, i + 1) == b@.subrange(0, i as int).push(b@[i as int]));
        i = i + 1;
    }
    assert(a@ == a@.subrange(0, n as int));
    assert(b@ == b@.subrange(0, n as int));
    true
}

} // verus!
