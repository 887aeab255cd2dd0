//! Input mapping for the subgraph check mutation: the caller-facing check
//! input translated to the mutation's variable shape.
//!
//! The caller describes a check as a graph reference, a subgraph name, the
//! proposed schema text, the git context it came from, and a check
//! configuration. The mutation wants the same information flattened into its
//! own wire shape, with the validation date range emitted as strings and
//! defaulted to the standard range when unset, and with the wire-level change
//! severity folded to the two values the tool distinguishes.
use vstd::prelude::*;
use vstd::std_specs::convert::FromSpecImpl;

verus! {

/// A graph identifier: the graph's name and the variant addressed.
#[derive(Debug, Clone, PartialEq)]
pub struct GraphRef {
    pub name: String,
    pub variant: String,
}

/// Where the proposed schema came from, as far as the caller knows it.
#[derive(Debug, Clone, PartialEq)]
pub struct GitContext {
    pub branch: Option<String>,
    pub commit: Option<String>,
    pub author: Option<String>,
    pub remote_url: Option<String>,
}

/// The date range the check validates operations against, both ends as the
/// endpoint expects them spelled.
#[derive(Debug, Clone, PartialEq)]
pub struct ValidationPeriod {
    pub from: String,
    pub to: String,
}

/// The `from` end of the standard validation range: the preceding day.
pub open spec fn default_period_from() -> Seq<char> {
    "-86400"@
}

/// The `to` end of the standard validation range: now.
pub open spec fn default_period_to() -> Seq<char> {
    "-0"@
}

impl Default for ValidationPeriod {
    /// The standard validation range, used when the caller sets none.
    fn default() -> (d: ValidationPeriod)
        ensures
            d.from@ == default_period_from(),
            d.to@ == default_period_to(),
    {
        ValidationPeriod {
            from: String::from_str("-86400"),
            to: String::from_str("-0"),
        }
    }
}

/// How the check is configured by the caller.
#[derive(Debug, Clone, PartialEq)]
pub struct CheckConfig {
    pub query_count_threshold: Option<i64>,
    pub query_count_threshold_percentage: Option<i64>,
    pub validation_period: Option<ValidationPeriod>,
}

/// The two-valued severity the tool reports.
#[derive(Debug, Clone, Copy, PartialEq, Eq, Structural)]
pub enum ChangeSeverity {
    PASS,
    FAIL,
}

/// The severity as the wire carries it. A value other than the two known
/// ones can only come from an endpoint speaking a newer schema; it is kept
/// verbatim so the defect can be reported.
#[derive(Debug, Clone, PartialEq)]
pub enum MutationChangeSeverity {
    NOTICE,
    FAILURE,
    Other(String),
}

/// How a wire-level severity folds: `NOTICE` passes, `FAILURE` fails, and any
/// other wire value is a defect carrying that value.
pub open spec fn wire_severity_mapping(severity: MutationChangeSeverity) -> Result<
    ChangeSeverity,
    String,
> {
    match severity {
        MutationChangeSeverity::NOTICE => Ok(ChangeSeverity::PASS),
        MutationChangeSeverity::FAILURE => Ok(ChangeSeverity::FAIL),
        MutationChangeSeverity::Other(raw) => Err(raw),
    }
}

impl ChangeSeverity {
    /// Fold the wire-level severity to the tool's two values: `NOTICE` means
    /// the check passed, `FAILURE` that it failed. Any third wire value is an
    /// impossible condition under the supported schema and is surfaced as a
    /// defect carrying the unexpected value, never coerced silently.
    pub fn from_wire(severity: MutationChangeSeverity) -> (r: Result<ChangeSeverity, String>)
        ensures
            r == wire_severity_mapping(severity),
    {
        match severity {
            MutationChangeSeverity::NOTICE => Ok(ChangeSeverity::PASS),
            MutationChangeSeverity::FAILURE => Ok(ChangeSeverity::FAIL),
            MutationChangeSeverity::Other(raw) => Err(raw),
        }
    }
}

/// Law: the severity folding never coerces. A wire severity folds to `PASS`
/// exactly when it is `NOTICE` and to `FAIL` exactly when it is `FAILURE`;
/// every other wire value — and only such a value — surfaces as a defect, and
/// the defect carries that value verbatim.
pub proof fn lemma_severity_mapping(severity: MutationChangeSeverity)
    ensures
        wire_severity_mapping(severity) == Ok::<ChangeSeverity, String>(ChangeSeverity::PASS)
            <==> severity == MutationChangeSeverity::NOTICE,
        wire_severity_mapping(severity) == Ok::<ChangeSeverity, String>(ChangeSeverity::FAIL)
            <==> severity == MutationChangeSeverity::FAILURE,
        wire_severity_mapping(severity) is Err <==> severity is Other,
        severity matches MutationChangeSeverity::Other(raw) ==> wire_severity_mapping(severity)
            == Err::<ChangeSeverity, String>(raw),
{
}

/// The proposed schema, in the shape the mutation's variables want it.
#[derive(Debug, Clone, PartialEq)]
pub struct PartialSchemaInput {
    pub sdl: Option<String>,
    pub hash: Option<String>,
}

/// The mutation's historic-traffic parameters.
#[derive(Debug, Clone, PartialEq)]
pub struct HistoricQueryParameters {
    pub query_count_threshold: Option<i64>,
    pub query_count_threshold_percentage: Option<i64>,
    pub from: Option<String>,
    pub to: Option<String>,
    pub excluded_clients: Option<Vec<String>>,
    pub ignored_operations: Option<Vec<String>>,
    pub included_variants: Option<Vec<String>>,
}

/// The git context, in the shape the mutation's variables want it.
#[derive(Debug, Clone, PartialEq)]
pub struct GitContextInput {
    pub branch: Option<String>,
    pub commit: Option<String>,
    pub committer: Option<String>,
    pub remote_url: Option<String>,
    pub message: Option<String>,
}

impl From<GitContext> for GitContextInput {
    /// The caller's git context carried over field by field; the author
    /// becomes the committer, and no commit message is sent.
    fn from(git_context: GitContext) -> (r: GitContextInput) {
        GitContextInput {
            branch: git_context.branch,
            commit: git_context.commit,
            committer: git_context.author,
            remote_url: git_context.remote_url,
            message: None,
        }
    }
}

impl FromSpecImpl<GitContext> for GitContextInput {
    open spec fn obeys_from_spec() -> bool {
        true
    }

    open spec fn from_spec(g: GitContext) -> GitContextInput {
        GitContextInput {
            branch: g.branch,
            commit: g.commit,
            committer: g.author,
            remote_url: g.remote_url,
            message: None,
        }
    }
}

/// Everything a caller supplies to run a subgraph check.
#[derive(Debug, Clone, PartialEq)]
pub struct SubgraphCheckInput {
    pub graph_ref: GraphRef,
    pub subgraph: String,
    pub proposed_schema: String,
    pub git_context: GitContext,
    pub config: CheckConfig,
}

/// The subgraph check mutation's variables.
#[derive(Debug, Clone, PartialEq)]
pub struct MutationVariables {
    pub graph_id: String,
    pub variant: String,
    pub subgraph: String,
    pub proposed_schema: PartialSchemaInput,
    pub config: HistoricQueryParameters,
    pub git_context: GitContextInput,
}

impl MutationVariables {
    /// Flatten a check input into the mutation's variable shape: the graph
    /// reference splits into graph id and variant, the schema text is sent as
    /// an sdl with no hash, the validation range (the standard one when the
    /// caller set none) is emitted on both ends, the client and operation
    /// filters are not configurable and stay unset, and the git context is
    /// carried over.
    pub fn from(input: SubgraphCheckInput) -> (r: MutationVariables)
        ensures
            r.graph_id == input.graph_ref.name,
            r.variant == input.graph_ref.variant,
            r.subgraph == input.subgraph,
            r.proposed_schema.sdl == Some(input.proposed_schema),
            r.proposed_schema.hash is None,
            r.config.query_count_threshold == input.config.query_count_threshold,
            r.config.query_count_threshold_percentage
                == input.config.query_count_threshold_percentage,
            match input.config.validation_period {
                Some(p) => (r.config.from matches Some(f) && f@ == p.from@) && (r.config.to
                    matches Some(t) && t@ == p.to@),
                None => (r.config.from matches Some(f) && f@ == default_period_from()) && (
                r.config.to matches Some(t) && t@ == default_period_to()),
            },
            r.config.excluded_clients is None,
            r.config.ignored_operations is None,
            r.config.included_variants is None,
            r.git_context == <GitContextInput as vstd::std_specs::convert::FromSpec<
                GitContext,
            >>::from_spec(input.git_context),
    {
        let period = match input.config.validation_period {
            Some(p) => p,
            None => ValidationPeriod::default(),
        };
        MutationVariables {
            graph_id: input.graph_ref.name,
            variant: input.graph_ref.variant,
            subgraph: input.subgraph,
            proposed_schema: PartialSchemaInput { sdl: Some(input.proposed_schema), hash: None },
            config: HistoricQueryParameters {
                query_count_threshold: input.config.query_count_threshold,
                query_count_threshold_percentage: input.config.query_count_threshold_percentage,
                from: Some(period.from),
                to: Some(period.to),
                // these are not configurable, but they cannot be left out
                excluded_clients: None,
                ignored_operations: None,
                included_variants: None,
            },
            git_context: GitContextInput::from(input.git_context),
        }
    }
}

} // verus!
