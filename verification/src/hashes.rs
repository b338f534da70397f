//! Closed enumerations of algorithm choices.
//!
//! Each enum is a fixed set of named variants, each bound to exactly one
//! canonical string token used for both display and parsing. Parsing succeeds
//! iff the input equals one of the declared tokens; rendering is the inverse
//! and round-trips losslessly.

use crate::error::ConfigError;
use vstd::prelude::*;
use vstd::string::StringExecFns;

verus! {

/// The hash used to build commitments over evaluation data.
#[allow(non_camel_case_types)]
#[derive(Debug, Clone, Copy, PartialEq, Eq, Structural)]
pub enum CommitmentHash {
    keccak256_masked160_lsb,
    blake256_masked248_lsb,
}

impl CommitmentHash {
    /// The canonical token of each variant.
    pub open spec fn spec_token(self) -> Seq<char> {
        match self {
            CommitmentHash::keccak256_masked160_lsb => "keccak256_masked160_lsb"@,
            CommitmentHash::blake256_masked248_lsb => "blake256_masked248_lsb"@,
        }
    }

    /// The variant whose token is `s`, if any.
    pub open spec fn spec_parse(s: Seq<char>) -> Option<CommitmentHash> {
        if s == "keccak256_masked160_lsb"@ {
            Some(CommitmentHash::keccak256_masked160_lsb)
        } else if s == "blake256_masked248_lsb"@ {
            Some(CommitmentHash::blake256_masked248_lsb)
        } else {
            None
        }
    }

    /// Renders the variant as its canonical token.
    pub fn render(&self) -> (r: &'static str)
        ensures
            r@ == self.spec_token(),
    {
        match self {
            CommitmentHash::keccak256_masked160_lsb => "keccak256_masked160_lsb",
            CommitmentHash::blake256_masked248_lsb => "blake256_masked248_lsb",
        }
    }

    /// Parses a token; any other string fails with `UnknownVariant`.
    pub fn parse(s: &str) -> (r: Result<CommitmentHash, ConfigError>)
        ensures
            match r {
                Ok(v) => CommitmentHash::spec_parse(s@) == Some(v),
                Err(e) => CommitmentHash::spec_parse(s@) is None
                    && (e matches ConfigError::UnknownVariant { enum_type, token }
                        && enum_type@ == "CommitmentHash"@ && token@ == s@),
            },
    {
        let t = s.to_owned();
        if t == String::from_str("keccak256_masked160_lsb") {
            Ok(CommitmentHash::keccak256_masked160_lsb)
        } else if t == String::from_str("blake256_masked248_lsb") {
            Ok(CommitmentHash::blake256_masked248_lsb)
        } else {
            Err(ConfigError::UnknownVariant {
                enum_type: String::from_str("CommitmentHash"),
                token: t,
            })
        }
    }

    /// Law: rendering a variant and parsing the result returns the variant.
    pub proof fn lemma_round_trip(v: CommitmentHash)
        ensures
            CommitmentHash::spec_parse(v.spec_token()) == Some(v),
    {
        reveal_strlit("keccak256_masked160_lsb");
        reveal_strlit("blake256_masked248_lsb");
        match v {
            CommitmentHash::keccak256_masked160_lsb => {
            },
            CommitmentHash::blake256_masked248_lsb => {
                assert("blake256_masked248_lsb"@[0] != "keccak256_masked160_lsb"@[0]);
            },
        }
    }
}

/// The hash used over memory pages of the statement.
#[allow(non_camel_case_types)]
#[derive(Debug, Clone, Copy, PartialEq, Eq, Structural)]
pub enum PageHash {
    pedersen,
    keccak256,
}

impl PageHash {
    /// The canonical token of each variant.
    pub open spec fn spec_token(self) -> Seq<char> {
        match self {
            PageHash::pedersen => "pedersen"@,
            PageHash::keccak256 => "keccak256"@,
        }
    }

    /// The variant whose token is `s`, if any.
    pub open spec fn spec_parse(s: Seq<char>) -> Option<PageHash> {
        if s == "pedersen"@ {
            Some(PageHash::pedersen)
        } else if s == "keccak256"@ {
            Some(PageHash::keccak256)
        } else {
            None
        }
    }

    /// Renders the variant as its canonical token.
    pub fn render(&self) -> (r: &'static str)
        ensures
            r@ == self.spec_token(),
    {
        match self {
            PageHash::pedersen => "pedersen",
            PageHash::keccak256 => "keccak256",
        }
    }

    /// Parses a token; any other string fails with `UnknownVariant`.
    pub fn parse(s: &str) -> (r: Result<PageHash, ConfigError>)
        ensures
            match r {
                Ok(v) => PageHash::spec_parse(s@) == Some(v),
                Err(e) => PageHash::spec_parse(s@) is None
                    && (e matches ConfigError::UnknownVariant { enum_type, token }
                        && enum_type@ == "PageHash"@ && token@ == s@),
            },
    {
        let t = s.to_owned();
        if t == String::from_str("pedersen") {
            Ok(PageHash::pedersen)
        } else if t == String::from_str("keccak256") {
            Ok(PageHash::keccak256)
        } else {
            Err(ConfigError::UnknownVariant {
                enum_type: String::from_str("PageHash"),
                token: t,
            })
        }
    }

    /// Law: rendering a variant and parsing the result returns the variant.
    pub proof fn lemma_round_trip(v: PageHash)
        ensures
            PageHash::spec_parse(v.spec_token()) == Some(v),
    {
        reveal_strlit("pedersen");
        reveal_strlit("keccak256");
        match v {
            PageHash::pedersen => {
            },
            PageHash::keccak256 => {
                assert("keccak256"@.len() != "pedersen"@.len());
            },
        }
    }
}

/// The hash used to derive pseudorandom challenges in the transcript.
#[allow(non_camel_case_types)]
#[derive(Debug, Clone, Copy, PartialEq, Eq, Structural)]
pub enum Hash {
    poseidon3,
    blake256,
    keccak256,
}

impl Hash {
    /// The canonical token of each variant.
    pub open spec fn spec_token(self) -> Seq<char> {
        match self {
            Hash::poseidon3 => "poseidon3"@,
            Hash::blake256 => "blake256"@,
            Hash::keccak256 => "keccak256"@,
        }
    }

    /// The variant whose token is `s`, if any.
    pub open spec fn spec_parse(s: Seq<char>) -> Option<Hash> {
        if s == "poseidon3"@ {
            Some(Hash::poseidon3)
        } else if s == "blake256"@ {
            Some(Hash::blake256)
        } else if s == "keccak256"@ {
            Some(Hash::keccak256)
        } else {
            None
        }
    }

    /// Renders the variant as its canonical token.
    pub fn render(&self) -> (r: &'static str)
        ensures
            r@ == self.spec_token(),
    {
        match self {
            Hash::poseidon3 => "poseidon3",
            Hash::blake256 => "blake256",
            Hash::keccak256 => "keccak256",
        }
    }

    /// Parses a token; any other string fails with `UnknownVariant`.
    pub fn parse(s: &str) -> (r: Result<Hash, ConfigError>)
        ensures
            match r {
                Ok(v) => Hash::spec_parse(s@) == Some(v),
                Err(e) => Hash::spec_parse(s@) is None
                    && (e matches ConfigError::UnknownVariant { enum_type, token }
                        && enum_type@ == "Hash"@ && token@ == s@),
            },
    {
        let t = s.to_owned();
        if t == String::from_str("poseidon3") {
            Ok(Hash::poseidon3)
        } else if t == String::from_str("blake256") {
            Ok(Hash::blake256)
        } else if t == String::from_str("keccak256") {
            Ok(Hash::keccak256)
        } else {
            Err(ConfigError::UnknownVariant {
                enum_type: String::from_str("Hash"),
                token: t,
            })
        }
    }

    /// Law: rendering a variant and parsing the result returns the variant.
    pub proof fn lemma_round_trip(v: Hash)
        ensures
            Hash::spec_parse(v.spec_token()) == Some(v),
    {
        reveal_strlit("poseidon3");
        reveal_strlit("blake256");
        reveal_strlit("keccak256");
        match v {
            Hash::poseidon3 => {
            },
            Hash::blake256 => {
                assert("blake256"@.len() != "poseidon3"@.len());
            },
            Hash::keccak256 => {
                assert("keccak256"@[0] != "poseidon3"@[0]);
                assert("keccak256"@.len() != "blake256"@.len());
            },
        }
    }
}

/// The hash used for the proof-of-work grinding of the transcript.
#[allow(non_camel_case_types)]
#[derive(Debug, Clone, Copy, PartialEq, Eq, Structural)]
pub enum PowHash {
    blake256,
    keccak256,
}

impl PowHash {
    /// The canonical token of each variant.
    pub open spec fn spec_token(self) -> Seq<char> {
        match self {
            PowHash::blake256 => "blake256"@,
            PowHash::keccak256 => "keccak256"@,
        }
    }

    /// The variant whose token is `s`, if any.
    pub open spec fn spec_parse(s: Seq<char>) -> Option<PowHash> {
        if s == "blake256"@ {
            Some(PowHash::blake256)
        } else if s == "keccak256"@ {
            Some(PowHash::keccak256)
        } else {
            None
        }
    }

    /// Renders the variant as its canonical token.
    pub fn render(&self) -> (r: &'static str)
        ensures
            r@ == self.spec_token(),
    {
        match self {
            PowHash::blake256 => "blake256",
            PowHash::keccak256 => "keccak256",
        }
    }

    /// Parses a token; any other string fails with `UnknownVariant`.
    pub fn parse(s: &str) -> (r: Result<PowHash, ConfigError>)
        ensures
            match r {
                Ok(v) => PowHash::spec_parse(s@) == Some(v),
                Err(e) => PowHash::spec_parse(s@) is None
                    && (e matches ConfigError::UnknownVariant { enum_type, token }
                        && enum_type@ == "PowHash"@ && token@ == s@),
            },
    {
        let t = s.to_owned();
        if t == String::from_str("blake256") {
            Ok(PowHash::blake256)
        } else if t == String::from_str("keccak256") {
            Ok(PowHash::keccak256)
        } else {
            Err(ConfigError::UnknownVariant {
                enum_type: String::from_str("PowHash"),
                token: t,
            })
        }
    }

    /// Law: rendering a variant and parsing the result returns the variant.
    pub proof fn lemma_round_trip(v: PowHash)
        ensures
            PowHash::spec_parse(v.spec_token()) == Some(v),
    {
        reveal_strlit("blake256");
        reveal_strlit("keccak256");
        match v {
            PowHash::blake256 => {
            },
            PowHash::keccak256 => {
                assert("keccak256"@.len() != "blake256"@.len());
            },
        }
    }
}

} // verus!
