//! The closed token classification sets: token type and supply type, each
//! with its document name and its wire value.

use vstd::prelude::*;

use crate::codec::str_eq;
use crate::error::DecodeError;

verus! {

/// The kind of token created.
#[derive(Debug, Clone, Copy, PartialEq, Eq, Structural)]
pub enum TokenType {
    /// Interchangeable units with a common denomination.
    FungibleCommon,
    /// Unique, non-interchangeable units.
    NonFungibleUnique,
}

/// How the token's supply is bounded.
#[derive(Debug, Clone, Copy, PartialEq, Eq, Structural)]
pub enum TokenSupplyType {
    /// The supply is unbounded.
    Infinite,
    /// The supply never exceeds the declared maximum.
    Finite,
}

/// The document name of a token type.
pub open spec fn token_type_text(t: TokenType) -> Seq<char> {
    match t {
        TokenType::FungibleCommon => "fungibleCommon"@,
        TokenType::NonFungibleUnique => "nonFungibleUnique"@,
    }
}

/// What decoding a token-type name yields: defined exactly on the two names
/// of the closed set.
pub open spec fn parse_token_type(s: Seq<char>) -> Option<TokenType> {
    if s == "fungibleCommon"@ {
        Some(TokenType::FungibleCommon)
    } else if s == "nonFungibleUnique"@ {
        Some(TokenType::NonFungibleUnique)
    } else {
        None
    }
}

/// The document name of a supply type.
pub open spec fn supply_type_text(t: TokenSupplyType) -> Seq<char> {
    match t {
        TokenSupplyType::Infinite => "infinite"@,
        TokenSupplyType::Finite => "finite"@,
    }
}

/// What decoding a supply-type name yields: defined exactly on the two names
/// of the closed set.
pub open spec fn parse_supply_type(s: Seq<char>) -> Option<TokenSupplyType> {
    if s == "infinite"@ {
        Some(TokenSupplyType::Infinite)
    } else if s == "finite"@ {
        Some(TokenSupplyType::Finite)
    } else {
        None
    }
}

/// Decoding inverts encoding for both token types.
pub proof fn lemma_token_type_round_trip(t: TokenType)
    ensures
        parse_token_type(token_type_text(t)) == Some(t),
{
    reveal_strlit("fungibleCommon");
    reveal_strlit("nonFungibleUnique");
    assert("fungibleCommon"@.len() != "nonFungibleUnique"@.len());
}

/// Decoding inverts encoding for both supply types.
pub proof fn lemma_supply_type_round_trip(t: TokenSupplyType)
    ensures
        parse_supply_type(supply_type_text(t)) == Some(t),
{
    reveal_strlit("infinite");
    reveal_strlit("finite");
    assert("infinite"@.len() != "finite"@.len());
}

impl TokenType {
    /// The wire value of this token type.
    pub open spec fn spec_to_protobuf(&self) -> i32 {
        match self {
            TokenType::FungibleCommon => 0,
            TokenType::NonFungibleUnique => 1,
        }
    }

    /// The wire value of this token type.
    pub fn to_protobuf(&self) -> (r: i32)
        ensures
            r == self.spec_to_protobuf(),
    {
        match self {
            TokenType::FungibleCommon => 0,
            TokenType::NonFungibleUnique => 1,
        }
    }

    /// The document name of this token type.
    pub fn to_text(&self) -> (r: &'static str)
        ensures
            r@ == token_type_text(*self),
    {
        match self {
            TokenType::FungibleCommon => "fungibleCommon",
            TokenType::NonFungibleUnique => "nonFungibleUnique",
        }
    }

    /// Decodes a document name; fails exactly on names outside the closed
    /// set.
    pub fn from_text(s: &str) -> (r: Result<Self, DecodeError>)
        ensures
            match r {
                Ok(t) => parse_token_type(s@) == Some(t),
                Err(e) => parse_token_type(s@) is None && e == DecodeError::UnknownTokenType,
            },
    {
        if str_eq(s, "fungibleCommon") {
            Ok(TokenType::FungibleCommon)
        } else if str_eq(s, "nonFungibleUnique") {
            Ok(TokenType::NonFungibleUnique)
        } else {
            Err(DecodeError::UnknownTokenType)
        }
    }
}

impl TokenSupplyType {
    /// The wire value of this supply type.
    pub open spec fn spec_to_protobuf(&self) -> i32 {
        match self {
            TokenSupplyType::Infinite => 0,
            TokenSupplyType::Finite => 1,
        }
    }

    /// The wire value of this supply type.
    pub fn to_protobuf(&self) -> (r: i32)
        ensures
            r == self.spec_to_protobuf(),
    {
        match self {
            TokenSupplyType::Infinite => 0,
            TokenSupplyType::Finite => 1,
        }
    }

    /// The document name of this supply type.
    pub fn to_text(&self) -> (r: &'static str)
        ensures
            r@ == supply_type_text(*self),
    {
        match self {
            TokenSupplyType::Infinite => "infinite",
            TokenSupplyType::Finite => "finite",
        }
    }

    /// Decodes a document name; fails exactly on names outside the closed
    /// set.
    pub fn from_text(s: &str) -> (r: Result<Self, DecodeError>)
        ensures
            match r {
                Ok(t) => parse_supply_type(s@) == Some(t),
                Err(e) => parse_supply_type(s@) is None && e == DecodeError::UnknownSupplyType,
            },
    {
        if str_eq(s, "infinite") {
            Ok(TokenSupplyType::Infinite)
        } else if str_eq(s, "finite") {
            Ok(TokenSupplyType::Finite)
        } else {
            Err(DecodeError::UnknownSupplyType)
        }
    }
}

} // verus!
