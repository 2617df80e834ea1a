//! Datasets: the units annotations and queries are scoped to.

use vstd::prelude::*;

use crate::comment::{AnnotatedComment, CommentFilter, Continuation};
use crate::error::Error;
use crate::label::{EntityDef, LabelDef, LabelGroup};
use crate::property::NotNan;
use crate::source;
use crate::text::{all_hex_digits, count_char, join_full_name, spec_all_hex_digits,
    spec_count_char};
use crate::time::Timestamp;
use crate::user::Username;

verus! {

/// A dataset as the service returns it.
pub struct Dataset {
    pub id: Id,
    pub name: Name,
    pub owner: Username,
    pub title: String,
    pub description: String,
    pub created_at: Timestamp,
    pub updated_at: Timestamp,
    pub model_family: ModelFamily,
    pub source_ids: Vec<source::Id>,
    pub has_sentiment: bool,
    pub entity_defs: Vec<EntityDef>,
    pub label_defs: Vec<LabelDef>,
    pub label_groups: Vec<LabelGroup>,
}

/// Headline figures of a dataset.
pub struct DatasetStats {
    pub num_reviewed: NotNan,
    pub total_verbatims: NotNan,
}

/// A dataset together with its figures.
pub struct DatasetAndStats {
    pub dataset: Dataset,
    pub stats: DatasetStats,
}

impl Dataset {
    /// The `<owner>/<name>` form under which the service addresses this
    /// dataset.
    pub fn full_name(&self) -> (r: FullName)
        ensures
            r.0@ == self.owner.0@ + "/"@ + self.name.0@,
    {
        FullName(join_full_name(&self.owner.0, &self.name.0))
    }
}

/// A dataset name, unique within its owner.
pub struct Name(pub String);

/// A fully qualified dataset name: `<owner>/<name>`.
pub struct FullName(pub String);

impl FullName {
    /// Accepts exactly the strings with one `/`, separating owner from
    /// name.
    pub fn parse(s: &str) -> (r: Result<FullName, Error>)
        ensures
            r is Ok <==> spec_count_char(s@, '/') == 1,
            (r matches Ok(name) ==> name.0@ == s@),
            (r matches Err(e) ==> (e matches Error::BadDatasetIdentifier { identifier }
                && identifier@ == s@)),
    {
        if count_char(s, '/') == 1 {
            Ok(FullName(s.to_owned()))
        } else {
            Err(Error::BadDatasetIdentifier { identifier: s.to_owned() })
        }
    }
}

/// The bucket width of a timeseries request.
pub enum TimeResolution {
    Day,
    Week,
    Month,
}

/// What a statistics attribute filter applies to.
pub enum Attribute {
    Labels,
    AttachmentPropertyTypes,
}

/// The shapes an attribute filter can take.
pub enum AttributeFilterEnum {
    StringAnyOf { any_of: Vec<String> },
}

/// A filter over one attribute of a statistics request.
pub struct AttributeFilter {
    pub attribute: Attribute,
    pub filter: AttributeFilterEnum,
}

/// The body of a dataset statistics request.
pub struct StatisticsRequestParams {
    pub attribute_filters: Vec<AttributeFilter>,
    pub comment_filter: CommentFilter,
    pub label_property_timeseries: bool,
    pub label_timeseries: bool,
    pub time_resolution: Option<TimeResolution>,
}

/// The order of a dataset query's results.
pub enum OrderEnum {
    ByLabel { label: String },
    Recent,
}

/// The body of a dataset summary request.
pub struct SummaryRequestParams {
    pub attribute_filters: Vec<AttributeFilter>,
    pub filter: CommentFilter,
}

/// The body of a dataset query. The continuation, when present, resumes
/// an earlier query.
pub struct QueryRequestParams {
    pub attribute_filters: Vec<AttributeFilter>,
    pub continuation: Option<Continuation>,
    pub filter: CommentFilter,
    pub limit: usize,
    pub order: OrderEnum,
}

/// One user property known to a dataset.
pub struct UserPropertySummary {
    pub full_name: String,
}

/// The user properties of a dataset, split by value type.
pub struct UserPropertySummaryList {
    pub string: Vec<UserPropertySummary>,
    pub number: Vec<UserPropertySummary>,
}

/// The summary of a dataset.
pub struct Summary {
    pub user_properties: UserPropertySummaryList,
}

/// The response of a summary request.
pub struct SummaryResponse {
    pub summary: Summary,
}

/// One page of a dataset query.
pub struct QueryResponse {
    pub continuation: Option<Continuation>,
    pub results: Vec<AnnotatedComment>,
}

/// A dataset id.
pub struct Id(pub String);

/// The model family a dataset is trained under.
pub struct ModelFamily(pub String);

/// A pinned model version of a dataset.
pub struct ModelVersion(pub u32);

/// How a dataset may be named in a request: by id or by full name.
pub enum Identifier {
    Id(Id),
    FullName(FullName),
}

impl Identifier {
    /// A string of hexadecimal digits names a dataset by id; anything
    /// else must be a full `<owner>/<name>` pair.
    pub fn parse(s: &str) -> (r: Result<Identifier, Error>)
        ensures
            r is Ok <==> (spec_all_hex_digits(s@) || spec_count_char(s@, '/') == 1),
            (r matches Ok(ident) ==> match ident {
                Identifier::Id(id) => spec_all_hex_digits(s@) && id.0@ == s@,
                Identifier::FullName(name) => !spec_all_hex_digits(s@) && name.0@ == s@,
            }),
            (r matches Err(e) ==> (e matches Error::BadDatasetIdentifier { identifier }
                && identifier@ == s@)),
    {
        if all_hex_digits(s) {
            Ok(Identifier::Id(Id(s.to_owned())))
        } else {
            match FullName::parse(s) {
                Ok(name) => Ok(Identifier::FullName(name)),
                Err(e) => Err(e),
            }
        }
    }
}

} // verus!
