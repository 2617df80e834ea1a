//! Sources: the containers comments are uploaded into.

use vstd::prelude::*;
use vstd::string::StringExecFns;

use crate::bucket;
use crate::error::Error;
use crate::text::{all_hex_digits, count_char, join_full_name, spec_all_hex_digits,
    spec_count_char};
use crate::time::Timestamp;
use crate::user::Username;

verus! {

broadcast use vstd::string::group_string_axioms;

/// A tag selecting the email transform applied on ingestion; any string
/// is accepted.
pub struct TransformTag(pub String);

impl TransformTag {
    pub fn parse(s: &str) -> (r: Result<TransformTag, Error>)
        ensures
            (r matches Ok(tag) && tag.0@ == s@),
    {
        Ok(TransformTag(s.to_owned()))
    }
}

/// A source id.
pub struct Id(pub String);

impl View for Id {
    type V = Seq<char>;

    open spec fn view(&self) -> Seq<char> {
        self.0@
    }
}

impl Clone for Id {
    fn clone(&self) -> (r: Self)
        ensures
            r == *self,
    {
        Id(self.0.clone())
    }
}

/// A source name, unique within its owner.
pub struct Name(pub String);

/// A fully qualified source name: `<owner>/<name>`.
pub struct FullName(pub String);

impl FullName {
    /// Accepts exactly the strings with one `/`, separating owner from
    /// name.
    pub fn parse(s: &str) -> (r: Result<FullName, Error>)
        ensures
            r is Ok <==> spec_count_char(s@, '/') == 1,
            (r matches Ok(name) ==> name.0@ == s@),
            (r matches Err(e) ==> (e matches Error::BadSourceIdentifier { identifier }
                && identifier@ == s@)),
    {
        if count_char(s, '/') == 1 {
            Ok(FullName(s.to_owned()))
        } else {
            Err(Error::BadSourceIdentifier { identifier: s.to_owned() })
        }
    }
}

/// How a source may be named in a request: by id or by full name.
pub enum Identifier {
    Id(Id),
    FullName(FullName),
}

impl Identifier {
    /// A string of hexadecimal digits names a source by id; anything else
    /// must be a full `<owner>/<name>` pair.
    pub fn parse(s: &str) -> (r: Result<Identifier, Error>)
        ensures
            r is Ok <==> (spec_all_hex_digits(s@) || spec_count_char(s@, '/') == 1),
            (r matches Ok(ident) ==> match ident {
                Identifier::Id(id) => spec_all_hex_digits(s@) && id@ == s@,
                Identifier::FullName(name) => !spec_all_hex_digits(s@) && name.0@ == s@,
            }),
            (r matches Err(e) ==> (e matches Error::BadSourceIdentifier { identifier }
                && identifier@ == s@)),
    {
        if all_hex_digits(s) {
            Ok(Identifier::Id(Id(s.to_owned())))
        } else {
            match FullName::parse(s) {
                Ok(name) => Ok(Identifier::FullName(name)),
                Err(e) => Err(e),
            }
        }
    }
}

/// What kind of conversations a source holds.
pub enum SourceKind {
    Call,
    Chat,
    Unknown(String),
}

impl SourceKind {
    /// `call` and `chat` name the known kinds; any other string is kept
    /// as an unknown kind.
    pub fn parse(s: &str) -> (r: SourceKind)
        ensures
            (s@ == "call"@ ==> r is Call),
            (s@ == "chat"@ ==> r is Chat),
            (r matches SourceKind::Unknown(v) ==> v@ == s@ && s@ != "call"@ && s@ != "chat"@),
    {
        proof {
            reveal_strlit("call");
            reveal_strlit("chat");
            assert("call"@[2] == 'l' && "chat"@[2] == 'a');
        }
        let owned = s.to_owned();
        if owned == String::from_str("call") {
            SourceKind::Call
        } else if owned == String::from_str("chat") {
            SourceKind::Chat
        } else {
            SourceKind::Unknown(owned)
        }
    }
}

/// A source as the service returns it.
pub struct Source {
    pub id: Id,
    pub owner: Username,
    pub name: Name,
    pub title: String,
    pub description: String,
    pub language: String,
    pub should_translate: bool,
    pub created_at: Timestamp,
    pub updated_at: Timestamp,
    pub bucket_id: Option<bucket::Id>,
    pub kind: SourceKind,
    pub transform_tag: Option<TransformTag>,
}

impl Source {
    /// The `<owner>/<name>` form under which the service addresses this
    /// source.
    pub fn full_name(&self) -> (r: FullName)
        ensures
            r.0@ == self.owner.0@ + "/"@ + self.name.0@,
    {
        FullName(join_full_name(&self.owner.0, &self.name.0))
    }
}

} // verus!
