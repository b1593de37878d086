//! The answers of the build graph: the output of a query, read as
//! derivations.
use vstd::prelude::*;

use crate::closure::{drvs_model, keys, Reference};
use crate::decode::{decode_drvs, lemma_decode_drvs_wf, spec_decode_drvs};
use crate::error::QueryError;
use crate::json::{json_of_bytes, parse_json, Json, JsonView};
use crate::nix::{Drv, DrvView};

verus! {

/// A query of the build graph for the description of a derivation.
#[derive(Debug, PartialEq, Eq)]
pub struct Query {
    /// What is asked for: the target of the run, or the reference of a
    /// derivation.
    pub reference: String,
    /// Whether `reference` is an expression to evaluate, and not the
    /// reference of a derivation.
    pub as_expression: bool,
}

/// The arguments that `nix` takes for a query.
pub open spec fn spec_arguments(reference: Seq<char>, as_expression: bool) -> Seq<Seq<char>> {
    if as_expression {
        seq!["show-derivation"@, "-f"@, reference]
    } else {
        seq!["show-derivation"@, reference]
    }
}

impl Query {
    /// The query for the target of the run, which is asked for as an
    /// expression.
    pub fn root(target: String) -> (query: Query)
        ensures
            query.reference == target,
            query.as_expression,
    {
        Query { reference: target, as_expression: true }
    }

    /// The query for a derivation that another one names: it is asked for by
    /// its reference.
    pub fn dependency(reference: String) -> (query: Query)
        ensures
            query.reference == reference,
            !query.as_expression,
    {
        Query { reference, as_expression: false }
    }

    /// The arguments that `nix` takes for the query.
    pub fn arguments(&self) -> (arguments: Vec<String>)
        ensures
            arguments.deep_view() == spec_arguments(self.reference@, self.as_expression),
    {
        let mut arguments: Vec<String> = Vec::new();
        arguments.push("show-derivation".to_owned());
        if self.as_expression {
            arguments.push("-f".to_owned());
        }
        arguments.push(self.reference.clone());
        arguments
    }
}

/// The JSON document of the output of a query. Output without a byte is no
/// answer, and neither is output that is not JSON.
pub open spec fn spec_derivation_json(output: Seq<u8>) -> Result<JsonView, QueryError> {
    if output.len() == 0 {
        Err(QueryError::Empty)
    } else {
        match json_of_bytes(output) {
            Some(json) => Ok(json),
            None => Err(QueryError::Syntax),
        }
    }
}

/// The derivations that the output of a query describes, each with its
/// reference.
pub open spec fn spec_derivations(output: Seq<u8>) -> Result<
    Seq<(Reference, DrvView)>,
    QueryError,
> {
    match spec_derivation_json(output) {
        Ok(json) => match spec_decode_drvs(json) {
            Some(drvs) => Ok(drvs),
            None => Err(QueryError::Shape),
        },
        Err(error) => Err(error),
    }
}

/// The one derivation that the output of a query describes. Output that
/// describes none, or several, is no answer to a query for one derivation.
pub open spec fn spec_derivation(output: Seq<u8>) -> Result<DrvView, QueryError> {
    match spec_derivations(output) {
        Ok(drvs) => if drvs.len() == 1 {
            Ok(drvs[0].1)
        } else {
            Err(QueryError::Shape)
        },
        Err(error) => Err(error),
    }
}

/// The derivations are a map, and so are the lists of each: no two
/// derivations have one reference, and no list has two entries of one name.
pub open spec fn are_maps(drvs: Seq<(Reference, DrvView)>) -> bool {
    &&& keys(drvs).no_duplicates()
    &&& forall|i: int| 0 <= i < drvs.len() ==> (#[trigger] drvs[i]).1.wf()
}

/// Reads the output of a query as a JSON document.
pub fn get_derivation_json(output: Vec<u8>) -> (answer: Result<Json, QueryError>)
    ensures
        match answer {
            Ok(json) => spec_derivation_json(output@) == Ok::<JsonView, QueryError>(json.model())
                && json.model().unique_names(),
            Err(error) => spec_derivation_json(output@) == Err::<JsonView, QueryError>(error),
        },
{
    if output.len() == 0 {
        return Err(QueryError::Empty);
    }
    match parse_json(&output) {
        Some(json) => Ok(json),
        None => Err(QueryError::Syntax),
    }
}

/// Reads the output of a query as the derivations it describes.
pub fn get_derivations(output: Vec<u8>) -> (answer: Result<Vec<(String, Drv)>, QueryError>)
    ensures
        match answer {
            Ok(drvs) => spec_derivations(output@) == Ok::<Seq<(Reference, DrvView)>, QueryError>(
                drvs_model(drvs@),
            ) && are_maps(drvs_model(drvs@)),
            Err(error) => spec_derivations(output@) == Err::<
                Seq<(Reference, DrvView)>,
                QueryError,
            >(error),
        },
{
    match get_derivation_json(output) {
        Ok(json) => match decode_drvs(&json) {
            Some(drvs) => {
                proof {
                    lemma_decode_drvs_wf(json.model());
                }
                Ok(drvs)
            },
            None => Err(QueryError::Shape),
        },
        Err(error) => Err(error),
    }
}

/// Reads the output of a query for one derivation as that derivation.
pub fn get_derivation(output: Vec<u8>) -> (answer: Result<Drv, QueryError>)
    ensures
        match answer {
            Ok(drv) => spec_derivation(output@) == Ok::<DrvView, QueryError>(drv.model())
                && drv.model().wf(),
            Err(error) => spec_derivation(output@) == Err::<DrvView, QueryError>(error),
        },
{
    match get_derivations(output) {
        Ok(mut drvs) => if drvs.len() == 1 {
            match drvs.pop() {
                Some(entry) => Ok(entry.1),
                None => Err(QueryError::Shape),
            }
        } else {
            Err(QueryError::Shape)
        },
        Err(error) => Err(error),
    }
}

} // verus!
