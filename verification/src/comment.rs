//! Comments and their annotations: the service's central resource, the
//! request and response shapes around it, and the annotation queries the
//! uploader asks of a record.

use vstd::prelude::*;

use crate::error::Error;
use crate::label::{default_label_group_name, EntityName, LabelGroupName, LabelName};
use crate::property::{NotNan, PropertyMap, PropertyValue};
use crate::source;
use crate::time::Timestamp;

verus! {

/// A comment id, chosen by the caller when the comment is created.
pub struct Id(pub String);

impl View for Id {
    type V = Seq<char>;

    open spec fn view(&self) -> Seq<char> {
        self.0@
    }
}

impl Id {
    /// Every string is a valid comment id.
    pub fn parse(s: &str) -> (r: Result<Id, Error>)
        ensures
            (r matches Ok(id) && id@ == s@),
    {
        Ok(Id(s.to_owned()))
    }
}

impl Clone for Id {
    fn clone(&self) -> (r: Self)
        ensures
            r == *self,
    {
        Id(self.0.clone())
    }
}

/// A comment uid, assigned by the service: `<source id>.<comment id>`.
pub struct Uid(pub String);

impl View for Uid {
    type V = Seq<char>;

    open spec fn view(&self) -> Seq<char> {
        self.0@
    }
}

impl Uid {
    /// Every string is accepted as a comment uid.
    pub fn parse(s: &str) -> (r: Result<Uid, Error>)
        ensures
            (r matches Ok(uid) && uid@ == s@),
    {
        Ok(Uid(s.to_owned()))
    }
}

/// The id of the conversation thread a comment belongs to.
pub struct ThreadId(pub String);

/// An opaque cursor issued by the service to resume a paginated listing.
/// It is consumed by exactly one follow-up page request; its absence on a
/// page marks the final page.
pub struct Continuation(pub String);

impl View for Continuation {
    type V = Seq<char>;

    open spec fn view(&self) -> Seq<char> {
        self.0@
    }
}

impl Clone for Continuation {
    fn clone(&self) -> (r: Self)
        ensures
            r == *self,
    {
        Continuation(self.0.clone())
    }
}

/// The cursor of a bulk labellings listing.
pub struct GetLabellingsAfter(pub String);

/// Bounds on comment timestamps, both ends optional and inclusive.
pub struct CommentTimestampFilter {
    pub minimum: Option<Timestamp>,
    pub maximum: Option<Timestamp>,
}

/// Restricts a listing to reviewed or unreviewed comments.
pub enum ReviewedFilterEnum {
    OnlyReviewed,
    OnlyUnreviewed,
}

/// Accepted and rejected values for one user property.
pub struct PropertyFilter {
    pub one_of: Vec<PropertyValue>,
    pub not_one_of: Vec<PropertyValue>,
    pub domain_not_one_of: Vec<PropertyValue>,
}

impl PropertyFilter {
    pub fn new(
        one_of: Vec<PropertyValue>,
        not_one_of: Vec<PropertyValue>,
        domain_not_one_of: Vec<PropertyValue>,
    ) -> (r: PropertyFilter)
        ensures
            r.one_of == one_of,
            r.not_one_of == not_one_of,
            r.domain_not_one_of == domain_not_one_of,
    {
        PropertyFilter { one_of, not_one_of, domain_not_one_of }
    }
}

/// Per-property filters, keyed by user property name.
pub struct UserPropertiesFilter(pub Vec<(String, PropertyFilter)>);

impl UserPropertiesFilter {
    /// Property names are pairwise distinct.
    pub open spec fn wf(&self) -> bool {
        forall|i: int, j: int|
            0 <= i < j < self.0@.len() ==> #[trigger] self.0@[i].0@ != #[trigger] self.0@[j].0@
    }
}

/// Restricts the senders and recipients of a comment's messages.
pub struct MessagesFilter {
    pub from: Option<PropertyFilter>,
    pub to: Option<PropertyFilter>,
}

/// The filter of a comment listing or statistics request.
pub struct CommentFilter {
    pub reviewed: Option<ReviewedFilterEnum>,
    pub timestamp: Option<CommentTimestampFilter>,
    pub user_properties: Option<UserPropertiesFilter>,
    pub sources: Vec<source::Id>,
    pub messages: Option<MessagesFilter>,
}

/// One message of a comment: a mail body with its envelope data.
pub struct Message {
    pub body: MessageBody,
    pub language: Option<String>,
    pub subject: Option<MessageSubject>,
    pub signature: Option<MessageSignature>,
    pub from: Option<String>,
    pub to: Option<Vec<String>>,
    pub cc: Option<Vec<String>>,
    pub bcc: Option<Vec<String>>,
    pub sent_at: Option<Timestamp>,
}

/// The text of a message. Markup renditions are raw JSON the client
/// carries through untouched.
pub struct MessageBody {
    pub text: String,
    pub translated_from: Option<String>,
    pub text_markup: Option<serde_json::Value>,
    pub translated_from_markup: Option<serde_json::Value>,
}

/// A message subject line.
pub struct MessageSubject {
    pub text: String,
    pub translated_from: Option<String>,
}

/// A detected signature block of a message.
pub struct MessageSignature {
    pub text: String,
    pub translated_from: Option<String>,
    pub text_markup: Option<serde_json::Value>,
    pub translated_from_markup: Option<serde_json::Value>,
}

/// The sentiment attached to an assigned label.
pub enum Sentiment {
    Positive,
    Negative,
}

/// Metadata of a file attached to a comment.
pub struct AttachmentMetadata {
    pub name: String,
    pub size: u64,
    pub content_type: String,
}

/// A comment as the service returns it.
pub struct Comment {
    pub id: Id,
    pub uid: Uid,
    pub thread_id: Option<ThreadId>,
    pub timestamp: Timestamp,
    pub messages: Vec<Message>,
    pub user_properties: PropertyMap,
    pub attachments: Vec<AttachmentMetadata>,
    pub created_at: Timestamp,
    pub has_annotations: bool,
}

/// A comment as the caller uploads it.
pub struct NewComment {
    pub id: Id,
    pub thread_id: Option<ThreadId>,
    pub timestamp: Timestamp,
    pub messages: Vec<Message>,
    pub user_properties: PropertyMap,
    pub attachments: Vec<AttachmentMetadata>,
}

/// A label assigned to or dismissed from a comment by a human annotator.
pub struct Label {
    pub name: LabelName,
    pub sentiment: Option<Sentiment>,
}

/// The name of a predicted label.
pub struct PredictedLabelName(pub String);

/// A label predicted by a model, with its confidence.
pub struct PredictedLabel {
    pub name: PredictedLabelName,
    pub probability: NotNan,
}

/// A label returned by a bulk prediction call under an automatic
/// threshold.
pub struct AutoThresholdLabel {
    pub name: LabelName,
    pub probability: NotNan,
}

/// The labels of one label group on a reviewed comment.
pub struct Labelling {
    pub group: LabelGroupName,
    pub assigned: Vec<Label>,
    pub dismissed: Vec<Label>,
    pub predicted: Option<Vec<PredictedLabel>>,
}

/// The labels of one label group as the caller uploads them.
pub struct NewLabelling {
    pub group: LabelGroupName,
    pub assigned: Option<Vec<Label>>,
    pub dismissed: Option<Vec<Label>>,
}

/// Labels uploaded in the legacy form, without a group name.
pub struct NewLegacyLabelling {
    pub assigned: Option<Vec<Label>>,
    pub dismissed: Option<Vec<Label>>,
}

/// Labellings as accepted on upload: grouped, or in the legacy ungrouped
/// form.
pub enum EitherLabelling {
    Labelling(Vec<NewLabelling>),
    LegacyLabelling(NewLegacyLabelling),
}

/// An entity occurrence on a comment.
pub struct Entity {
    pub name: EntityName,
    pub formatted_value: String,
}

/// The entities of a reviewed comment.
pub struct Entities {
    pub assigned: Vec<Entity>,
    pub dismissed: Vec<Entity>,
    pub predicted: Option<Vec<Entity>>,
}

/// Entities as the caller uploads them.
pub struct NewEntities {
    pub assigned: Option<Vec<Entity>>,
    pub dismissed: Option<Vec<Entity>>,
}

/// A filled review form on a comment.
pub struct MoonForm {
    pub assigned: Vec<Label>,
}

/// A review form as the caller uploads it.
pub struct NewMoonForm {
    pub assigned: Vec<Label>,
}

/// A label property value attached to a reviewed comment.
pub struct LabelProperty {
    pub property_name: String,
    pub value: NotNan,
}

/// Aggregates over the thread a comment belongs to.
pub struct ThreadProperties {
    pub duration: Option<NotNan>,
    pub response_time: Option<NotNan>,
    pub num_messages: u64,
    pub thread_position: Option<u64>,
    pub first_sender: Option<String>,
}

/// A comment with its annotations, as listings return it.
pub struct AnnotatedComment {
    pub comment: Comment,
    pub labelling: Option<Vec<Labelling>>,
    pub entities: Option<Entities>,
    pub thread_properties: Option<ThreadProperties>,
    pub moon_forms: Option<Vec<MoonForm>>,
    pub label_properties: Option<Vec<LabelProperty>>,
}

/// Model predictions for one comment.
pub struct Prediction {
    pub uid: Uid,
    pub labels: Option<Vec<AutoThresholdLabel>>,
    pub entities: Option<Vec<Entity>>,
}

/// A comment with its annotations and an optional audio attachment, as
/// the caller uploads it.
pub struct NewAnnotatedComment {
    pub comment: NewComment,
    pub labelling: Option<EitherLabelling>,
    pub entities: Option<NewEntities>,
    pub audio_path: Option<String>,
    pub moon_forms: Option<Vec<NewMoonForm>>,
}

/// One page of a recent-comments listing.
pub struct RecentCommentsPage {
    pub results: Vec<AnnotatedComment>,
    pub continuation: Option<Continuation>,
}

/// The response of a bulk labellings request.
pub struct GetAnnotationsResponse {
    pub results: Vec<AnnotatedComment>,
    pub after: Option<GetLabellingsAfter>,
}

/// The response of a bulk predictions request.
pub struct GetPredictionsResponse {
    pub predictions: Vec<Prediction>,
}

/// The body of an annotation update.
pub struct UpdateAnnotationsRequest {
    pub labelling: Option<Vec<NewLabelling>>,
    pub entities: Option<NewEntities>,
    pub moon_forms: Option<Vec<NewMoonForm>>,
}

/// One page of a comment listing.
pub struct CommentsIterPage {
    pub comments: Vec<Comment>,
    pub continuation: Option<Continuation>,
}

/// The (empty) response of a put-comments call.
pub struct PutCommentsResponse;

/// The response of a sync-comments call, with the per-outcome breakdown.
pub struct SyncCommentsResponse {
    pub new: usize,
    pub updated: usize,
    pub unchanged: usize,
}

/// The response of a single-comment request.
pub struct GetCommentResponse {
    pub comment: Comment,
}

/// A value that may carry human annotations.
pub trait HasAnnotations {
    /// Whether any annotation is present.
    spec fn spec_has_annotations(&self) -> bool;

    /// Run-time counterpart of [`HasAnnotations::spec_has_annotations`].
    fn has_annotations(&self) -> (r: bool)
        ensures
            r == self.spec_has_annotations(),
    ;
}

impl Labelling {
    /// Whether an annotator assigned or dismissed any label in this group.
    pub open spec fn spec_is_annotated(&self) -> bool {
        self.assigned@.len() > 0 || self.dismissed@.len() > 0
    }

    /// Run-time counterpart of [`Labelling::spec_is_annotated`].
    pub fn is_annotated(&self) -> (r: bool)
        ensures
            r == self.spec_is_annotated(),
    {
        self.assigned.len() > 0 || self.dismissed.len() > 0
    }

    /// Whether this group is the default label group.
    pub open spec fn spec_is_default_group(&self) -> bool {
        self.group.0@ == "default"@
    }

    /// Run-time counterpart of [`Labelling::spec_is_default_group`].
    pub fn is_default_group(&self) -> (r: bool)
        ensures
            r == self.spec_is_default_group(),
    {
        self.group.0 == default_label_group_name().0
    }

    /// The same labelling with predictions dropped.
    pub open spec fn spec_without_predictions(self) -> Labelling {
        Labelling {
            group: self.group,
            assigned: self.assigned,
            dismissed: self.dismissed,
            predicted: None,
        }
    }
}

impl NewLabelling {
    /// Whether this labelling names the default label group.
    pub open spec fn spec_is_default_group(&self) -> bool {
        self.group.0@ == "default"@
    }

    /// Run-time counterpart of [`NewLabelling::spec_is_default_group`].
    pub fn is_default_group(&self) -> (r: bool)
        ensures
            r == self.spec_is_default_group(),
    {
        self.group.0 == default_label_group_name().0
    }
}

impl Entities {
    /// Whether an annotator assigned or dismissed any entity.
    pub open spec fn spec_is_annotated(&self) -> bool {
        self.assigned@.len() > 0 || self.dismissed@.len() > 0
    }

    /// Run-time counterpart of [`Entities::spec_is_annotated`].
    pub fn is_annotated(&self) -> (r: bool)
        ensures
            r == self.spec_is_annotated(),
    {
        self.assigned.len() > 0 || self.dismissed.len() > 0
    }

    /// The same entities with predictions dropped.
    pub open spec fn spec_without_predictions(self) -> Entities {
        Entities { assigned: self.assigned, dismissed: self.dismissed, predicted: None }
    }
}

/// Whether any group of an optional labelling carries annotations.
pub open spec fn spec_any_group_annotated(labelling: Option<Vec<Labelling>>) -> bool {
    match labelling {
        Option::Some(gs) => exists|i: int|
            0 <= i < gs@.len() && (#[trigger] gs@[i]).spec_is_annotated(),
        Option::None => false,
    }
}

fn any_group_annotated(gs: &Vec<Labelling>) -> (r: bool)
    ensures
        r == exists|i: int| 0 <= i < gs@.len() && (#[trigger] gs@[i]).spec_is_annotated(),
{
    let len = gs.len();
    let mut i: usize = 0;
    while i < len
        invariant
            0 <= i <= len,
            len == gs@.len(),
            forall|j: int| 0 <= j < i ==> !(#[trigger] gs@[j]).spec_is_annotated(),
        decreases len - i,
    {
        if gs[i].is_annotated() {
            return true;
        }
        i = i + 1;
    }
    false
}

/// The first labelling group named `default`, if any.
#[verifier::loop_isolation(false)]
pub fn get_default_labelling_group(labelling: &Option<Vec<Labelling>>) -> (r: Option<&Labelling>)
    ensures
        (match labelling {
            Option::Some(gs) => {
                &&& (r is Some <==> exists|i: int|
                    0 <= i < gs@.len() && (#[trigger] gs@[i]).spec_is_default_group())
                &&& (r matches Some(g) ==> exists|i: int|
                    {
                        &&& 0 <= i < gs@.len()
                        &&& #[trigger] gs@[i] == *g
                        &&& gs@[i].spec_is_default_group()
                        &&& forall|j: int|
                            0 <= j < i ==> !(#[trigger] gs@[j]).spec_is_default_group()
                    })
            },
            Option::None => r is None,
        }),
{
    match labelling {
        Option::Some(gs) => {
            let len = gs.len();
            let mut i: usize = 0;
            while i < len
                invariant
                    0 <= i <= len,
                    len == gs@.len(),
                    forall|j: int| 0 <= j < i ==> !(#[trigger] gs@[j]).spec_is_default_group(),
                decreases len - i,
            {
                if gs[i].is_default_group() {
                    proof {
                        let k = i as int;
                        assert(gs@[k].spec_is_default_group());
                        assert(forall|j: int|
                            0 <= j < k ==> !(#[trigger] gs@[j]).spec_is_default_group());
                    }
                    return Some(&gs[i]);
                }
                i = i + 1;
            }
            None
        },
        Option::None => None,
    }
}

impl HasAnnotations for AnnotatedComment {
    open spec fn spec_has_annotations(&self) -> bool {
        ||| spec_any_group_annotated(self.labelling)
        ||| (match self.entities {
            Option::Some(e) => e.spec_is_annotated(),
            Option::None => false,
        })
        ||| self.moon_forms.spec_has_annotations()
    }

    fn has_annotations(&self) -> (r: bool) {
        let has_labels = match &self.labelling {
            Option::Some(gs) => any_group_annotated(gs),
            Option::None => false,
        };
        let has_entities = match &self.entities {
            Option::Some(e) => e.is_annotated(),
            Option::None => false,
        };
        has_labels || has_entities || self.moon_forms.has_annotations()
    }
}

impl AnnotatedComment {
    /// Drops model predictions: labellings and entities keep only what an
    /// annotator assigned or dismissed, and disappear entirely when no
    /// group or entity was annotated.
    pub fn without_predictions(self) -> (r: AnnotatedComment)
        ensures
            r.comment == self.comment,
            r.thread_properties == self.thread_properties,
            r.moon_forms == self.moon_forms,
            r.label_properties == self.label_properties,
            (!spec_any_group_annotated(self.labelling) ==> r.labelling is None),
            (self.labelling matches Some(gs) ==> (spec_any_group_annotated(self.labelling) ==> (
            r.labelling matches Some(out) && out@.len() == gs@.len() && forall|i: int|
                0 <= i < gs@.len() ==> out@[i] == (#[trigger] gs@[i]).spec_without_predictions()))),
            (match self.entities {
                Option::Some(e) => (if e.spec_is_annotated() {
                    r.entities == Some(e.spec_without_predictions())
                } else {
                    r.entities is None
                }),
                Option::None => r.entities is None,
            }),
    {
        let AnnotatedComment {
            comment,
            labelling,
            entities,
            thread_properties,
            moon_forms,
            label_properties,
        } = self;
        let stripped_labelling: Option<Vec<Labelling>> = match labelling {
            Option::Some(gs) => {
                if any_group_annotated(&gs) {
                    let mut rest = gs;
                    let ghost orig = rest@;
                    let mut out: Vec<Labelling> = Vec::new();
                    while rest.len() > 0
                        invariant
                            orig.len() == out@.len() + rest@.len(),
                            rest@ =~= orig.skip(out@.len() as int),
                            forall|i: int|
                                0 <= i < out@.len() ==> out@[i] == (#[trigger] orig[i]).spec_without_predictions(),
                        decreases rest@.len(),
                    {
                        let ghost done = out@.len() as int;
                        let g = rest.remove(0);
                        proof {
                            assert(g == orig[done]);
                            assert(rest@ =~= orig.skip(done + 1));
                        }
                        out.push(
                            Labelling {
                                group: g.group,
                                assigned: g.assigned,
                                dismissed: g.dismissed,
                                predicted: None,
                            },
                        );
                    }
                    Some(out)
                } else {
                    None
                }
            },
            Option::None => None,
        };
        let stripped_entities: Option<Entities> = match entities {
            Option::Some(e) => {
                if e.is_annotated() {
                    Some(Entities { assigned: e.assigned, dismissed: e.dismissed, predicted: None })
                } else {
                    None
                }
            },
            Option::None => None,
        };
        AnnotatedComment {
            comment,
            labelling: stripped_labelling,
            entities: stripped_entities,
            thread_properties,
            moon_forms,
            label_properties,
        }
    }
}

impl HasAnnotations for EitherLabelling {
    open spec fn spec_has_annotations(&self) -> bool {
        match self {
            EitherLabelling::Labelling(gs) => exists|i: int|
                0 <= i < gs@.len() && ((#[trigger] gs@[i]).assigned is Some
                    || gs@[i].dismissed is Some),
            EitherLabelling::LegacyLabelling(l) => l.assigned is Some || l.dismissed is Some,
        }
    }

    #[verifier::loop_isolation(false)]
    fn has_annotations(&self) -> (r: bool) {
        match self {
            EitherLabelling::Labelling(gs) => {
                let len = gs.len();
                let mut i: usize = 0;
                while i < len
                    invariant
                        0 <= i <= len,
                        len == gs@.len(),
                        forall|j: int|
                            0 <= j < i ==> !((#[trigger] gs@[j]).assigned is Some
                                || gs@[j].dismissed is Some),
                    decreases len - i,
                {
                    if gs[i].assigned.is_some() || gs[i].dismissed.is_some() {
                        proof {
                            assert((#[trigger] gs@[i as int]).assigned is Some || gs@[
                                i as int].dismissed is Some);
                        }
                        return true;
                    }
                    i = i + 1;
                }
                false
            },
            EitherLabelling::LegacyLabelling(l) => l.assigned.is_some() || l.dismissed.is_some(),
        }
    }
}

/// Relates a labelling as uploaded to its grouped normal form: grouped
/// labellings pass through unchanged; legacy ungrouped labels become one
/// labelling of the default group.
pub open spec fn spec_new_labellings_of(e: EitherLabelling, v: Seq<NewLabelling>) -> bool {
    match e {
        EitherLabelling::Labelling(gs) => v == gs@,
        EitherLabelling::LegacyLabelling(l) => {
            &&& v.len() == 1
            &&& v[0].group.0@ == "default"@
            &&& v[0].assigned == l.assigned
            &&& v[0].dismissed == l.dismissed
        },
    }
}

impl EitherLabelling {
    /// Normalises to the grouped form: legacy ungrouped labels become one
    /// labelling of the default group.
    pub fn into_new_labellings(self) -> (r: Vec<NewLabelling>)
        ensures
            spec_new_labellings_of(self, r@),
    {
        match self {
            EitherLabelling::Labelling(gs) => gs,
            EitherLabelling::LegacyLabelling(l) => {
                let mut out: Vec<NewLabelling> = Vec::new();
                out.push(
                    NewLabelling {
                        group: default_label_group_name(),
                        assigned: l.assigned,
                        dismissed: l.dismissed,
                    },
                );
                out
            },
        }
    }
}

impl HasAnnotations for NewEntities {
    open spec fn spec_has_annotations(&self) -> bool {
        self.assigned is Some || self.dismissed is Some
    }

    fn has_annotations(&self) -> (r: bool) {
        self.assigned.is_some() || self.dismissed.is_some()
    }
}

impl<T: HasAnnotations> HasAnnotations for Option<T> {
    open spec fn spec_has_annotations(&self) -> bool {
        match self {
            Option::Some(x) => x.spec_has_annotations(),
            Option::None => false,
        }
    }

    fn has_annotations(&self) -> (r: bool) {
        match self {
            Option::Some(x) => x.has_annotations(),
            Option::None => false,
        }
    }
}

impl HasAnnotations for Vec<MoonForm> {
    open spec fn spec_has_annotations(&self) -> bool {
        exists|i: int| 0 <= i < self@.len() && (#[trigger] self@[i]).assigned@.len() > 0
    }

    fn has_annotations(&self) -> (r: bool) {
        let len = self.len();
        let mut i: usize = 0;
        while i < len
            invariant
                0 <= i <= len,
                len == self@.len(),
                forall|j: int| 0 <= j < i ==> (#[trigger] self@[j]).assigned@.len() == 0,
            decreases len - i,
        {
            if self[i].assigned.len() > 0 {
                return true;
            }
            i = i + 1;
        }
        false
    }
}

impl HasAnnotations for Vec<NewMoonForm> {
    open spec fn spec_has_annotations(&self) -> bool {
        exists|i: int| 0 <= i < self@.len() && (#[trigger] self@[i]).assigned@.len() > 0
    }

    fn has_annotations(&self) -> (r: bool) {
        let len = self.len();
        let mut i: usize = 0;
        while i < len
            invariant
                0 <= i <= len,
                len == self@.len(),
                forall|j: int| 0 <= j < i ==> (#[trigger] self@[j]).assigned@.len() == 0,
            decreases len - i,
        {
            if self[i].assigned.len() > 0 {
                return true;
            }
            i = i + 1;
        }
        false
    }
}

impl HasAnnotations for NewAnnotatedComment {
    open spec fn spec_has_annotations(&self) -> bool {
        ||| self.labelling.spec_has_annotations()
        ||| self.entities.spec_has_annotations()
        ||| self.moon_forms.spec_has_annotations()
    }

    fn has_annotations(&self) -> (r: bool) {
        self.labelling.has_annotations() || self.entities.has_annotations()
            || self.moon_forms.has_annotations()
    }
}

} // verus!
