//! Benchmark-run configuration.
//!
//! The surrounding repository drives this compiler's execution layer from
//! a throughput harness; the one piece of that harness with any logic in
//! it is the choice of transaction flavor, parsed from a configuration
//! label.  Everything else about the harness (actor wiring, storage
//! bootstrap, transaction signing) is plain composition around outside
//! services and lives with the harness, not here.

use vstd::prelude::*;

verus! {

/// The transaction flavor a benchmark run exercises.
#[derive(PartialEq, Eq)]
pub enum TxType {
    Empty,
    Transfer,
    Blog,
}

/// The flavor a configuration label selects; an unrecognized label falls
/// back to `Empty`.
pub open spec fn tx_type_of_label(s: Seq<char>) -> TxType {
    if s == "transfer"@ {
        TxType::Transfer
    } else if s == "blog"@ {
        TxType::Blog
    } else {
        TxType::Empty
    }
}

impl TxType {
    pub fn from_label(s: &str) -> (t: TxType)
        ensures
            t == tx_type_of_label(s@),
    {
        let owned: String = s.to_owned();
        let transfer: String = "transfer".to_owned();
        let blog: String = "blog".to_owned();
        if owned == transfer {
            TxType::Transfer
        } else if owned == blog {
            TxType::Blog
        } else {
            TxType::Empty
        }
    }

    /// The display label of the flavor.
    pub fn label(&self) -> (r: String)
        ensures
            r@ == self.spec_label(),
    {
        match self {
            TxType::Empty => "empty".to_owned(),
            TxType::Transfer => "transfer".to_owned(),
            TxType::Blog => "blog".to_owned(),
        }
    }

    pub open spec fn spec_label(self) -> Seq<char> {
        match self {
            TxType::Empty => "empty"@,
            TxType::Transfer => "transfer"@,
            TxType::Blog => "blog"@,
        }
    }
}

impl core::str::FromStr for TxType {
    type Err = ();

    fn from_str(s: &str) -> Result<TxType, ()> {
        Ok(TxType::from_label(s))
    }
}

} // verus!
