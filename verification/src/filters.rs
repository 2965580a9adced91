//! Comparison filters used by listing endpoints.
//!
//! A counter filter names a field, a comparison operator, and a value;
//! listings translate it into a store predicate. The operator's wire
//! form is a fixed keyword, parsed and rendered here.

use crate::error::{ErrorKind, ServiceError};
use vstd::prelude::*;

verus! {

/// How a set of filter values combines.
#[derive(Clone, Copy, Debug, PartialEq, Eq, Structural)]
pub enum FilterType {
    AnyOf,
    AllOf,
    NoneOf,
}

/// The comparison a filter applies.
#[derive(Clone, Copy, Debug, PartialEq, Eq, Structural)]
pub enum ComparisonOperator {
    Eq,
    Ne,
    Gt,
    Gte,
    Lt,
    Lte,
}

impl ComparisonOperator {
    /// The wire keyword of each operator.
    pub open spec fn keyword(self) -> Seq<char> {
        match self {
            ComparisonOperator::Eq => "eq"@,
            ComparisonOperator::Ne => "ne"@,
            ComparisonOperator::Gt => "gt"@,
            ComparisonOperator::Gte => "gte"@,
            ComparisonOperator::Lt => "lt"@,
            ComparisonOperator::Lte => "lte"@,
        }
    }

    /// The operator a wire keyword names, tried in a fixed order.
    pub open spec fn spec_from_keyword(s: Seq<char>) -> Option<ComparisonOperator> {
        if s == "eq"@ {
            Some(ComparisonOperator::Eq)
        } else if s == "ne"@ {
            Some(ComparisonOperator::Ne)
        } else if s == "gt"@ {
            Some(ComparisonOperator::Gt)
        } else if s == "gte"@ {
            Some(ComparisonOperator::Gte)
        } else if s == "lt"@ {
            Some(ComparisonOperator::Lt)
        } else if s == "lte"@ {
            Some(ComparisonOperator::Lte)
        } else {
            None
        }
    }

    /// Renders the operator as its wire keyword.
    pub fn to_string(&self) -> (r: String)
        ensures
            r@ == self.keyword(),
    {
        match self {
            ComparisonOperator::Eq => "eq".to_owned(),
            ComparisonOperator::Ne => "ne".to_owned(),
            ComparisonOperator::Gt => "gt".to_owned(),
            ComparisonOperator::Gte => "gte".to_owned(),
            ComparisonOperator::Lt => "lt".to_owned(),
            ComparisonOperator::Lte => "lte".to_owned(),
        }
    }

    /// Parses a wire keyword; an unknown keyword is a validation
    /// failure.
    pub fn from_str(s: &str) -> (r: Result<ComparisonOperator, ServiceError>)
        ensures
            match r {
                Ok(op) => ComparisonOperator::spec_from_keyword(s@) == Some(op),
                Err(e) => ComparisonOperator::spec_from_keyword(s@) is None && e.kind
                    == ErrorKind::Validation,
            },
    {
        let owned = s.to_owned();
        if owned.eq(&"eq".to_owned()) {
            Ok(ComparisonOperator::Eq)
        } else if owned.eq(&"ne".to_owned()) {
            Ok(ComparisonOperator::Ne)
        } else if owned.eq(&"gt".to_owned()) {
            Ok(ComparisonOperator::Gt)
        } else if owned.eq(&"gte".to_owned()) {
            Ok(ComparisonOperator::Gte)
        } else if owned.eq(&"lt".to_owned()) {
            Ok(ComparisonOperator::Lt)
        } else if owned.eq(&"lte".to_owned()) {
            Ok(ComparisonOperator::Lte)
        } else {
            Err(ServiceError::of_kind(ErrorKind::Validation))
        }
    }
}

/// One filter condition: a field, the comparison to apply, and the
/// value compared against.
pub struct CounterFilter<T, V> {
    pub filter: T,
    pub operator: ComparisonOperator,
    pub value: V,
}

} // verus!
