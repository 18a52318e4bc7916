//! The research dossier: the document that a campaign's resources are composed into,
//! in Markdown and in LaTeX.

pub mod balance;
pub mod citations;
pub mod compose;
pub mod conformance;
pub mod curation;
pub mod escape;
pub mod forest;
pub mod frame;
pub mod latex;
pub mod markdown;
pub mod okf;
pub mod parts;
pub mod sensitivity;
pub mod shown;

use vstd::prelude::*;

pub use citations::{cites_to_footnotes, citation_check, CitationCheck};
pub use compose::{compose, Dossier};
pub use curation::{curate, descendants_of, Curation};
pub use escape::yaml_scalar;
pub use forest::{build_forest, TreeNode};
pub use latex::render_latex;
pub use markdown::render;
pub use okf::{link_warnings, okf_check, OkfCheck};
pub use parts::data_cutoff;

verus! {

/// The label that ties an experiment to its campaign.
pub const CAMPAIGN_LABEL: &'static str = "athena.nixlab.io/campaign";

/// What selects the experiments of a campaign.
pub fn campaign_selector(campaign_name: &str) -> (r: String)
    ensures
        r@ == CAMPAIGN_LABEL@ + "="@ + campaign_name@,
{
    let mut s = CAMPAIGN_LABEL.to_owned();
    s.append("=");
    s.append(campaign_name);
    s
}

/// The error of `std::fmt`. Nothing is claimed of it.
#[verifier::external_type_specification]
#[verifier::external_body]
pub struct FmtError(std::fmt::Error);

} // verus!
