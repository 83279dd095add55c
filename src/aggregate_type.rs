use vstd::prelude::*;

use crate::value_object::ValueObject;

verus! {

/// Why a name was not recognised as a kind of aggregate.
#[derive(Debug, Clone, PartialEq, Eq)]
pub enum AggregateTypeError {
    /// The name that was given.
    FailedToParse(String),
}

/// The kinds of aggregate, as stored beside their events.
#[derive(Debug, Clone, Copy, PartialEq, Eq, Hash, Structural)]
pub enum AggregateType {
    User,
    Blog,
}

impl AggregateType {
    /// The stable name of the kind.
    pub open spec fn spec_name(self) -> Seq<char> {
        match self {
            AggregateType::User => "user"@,
            AggregateType::Blog => "blog"@,
        }
    }

    pub fn as_str(self) -> (r: &'static str)
        ensures
            r@ == self.spec_name(),
    {
        match self {
            AggregateType::User => "user",
            AggregateType::Blog => "blog",
        }
    }

    pub fn to_string(self) -> (r: String)
        ensures
            r@ == self.spec_name(),
    {
        self.as_str().to_owned()
    }

    /// The kind with the name `s`; any other name is refused.
    pub fn parse(s: &str) -> (r: Result<AggregateType, AggregateTypeError>)
        ensures
            s@ == "user"@ ==> r == Ok::<AggregateType, AggregateTypeError>(AggregateType::User),
            s@ == "blog"@ ==> r == Ok::<AggregateType, AggregateTypeError>(AggregateType::Blog),
            s@ != "user"@ && s@ != "blog"@ ==> (r matches Err(AggregateTypeError::FailedToParse(
                name,
            )) && name@ == s@),
    {
        let name = s.to_owned();
        proof {
            reveal_strlit("user");
            reveal_strlit("blog");
            assert("user"@[0] != "blog"@[0]);
        }
        if name == "user".to_owned() {
            Ok(AggregateType::User)
        } else if name == "blog".to_owned() {
            Ok(AggregateType::Blog)
        } else {
            Err(AggregateTypeError::FailedToParse(name))
        }
    }
}

impl std::str::FromStr for AggregateType {
    type Err = AggregateTypeError;

    fn from_str(s: &str) -> Result<AggregateType, AggregateTypeError> {
        AggregateType::parse(s)
    }
}

impl ValueObject for AggregateType {}

} // verus!
