//! The batching uploader: turns a stream of annotated comments into the
//! sequence of calls the transport must make.
//!
//! Records accumulate in two pending buffers — inserts (put) and upserts
//! (sync) — and flush together once the combined pending count reaches
//! the configured batch size, and once more when the input ends. A
//! record's audio attachment is queued beside it and emitted only after
//! the batch holding the record, so an attachment never references a
//! comment the service has not accepted. Annotations queue separately
//! and flush after the comment batch they depend on.

use vstd::prelude::*;

use crate::comment::{HasAnnotations, Id, NewAnnotatedComment, NewComment, NewEntities,
    NewLabelling, NewMoonForm};

verus! {

/// The policy knobs of one upload run.
#[derive(Clone, Copy)]
pub struct UploadConfig {
    /// How many records one batch call may carry; at least 1.
    pub batch_size: usize,
    /// Send every record to the upsert endpoint, overwriting by id.
    pub overwrite: bool,
    /// Accept repeated ids, routing repeats to the upsert endpoint.
    pub allow_duplicates: bool,
    /// A dataset is attached: annotations are collected and uploaded.
    pub has_dataset: bool,
    /// Upload review forms instead of labellings and entities.
    pub use_moon_forms: bool,
}

impl UploadConfig {
    /// The invariant every usable configuration satisfies.
    pub open spec fn wf(&self) -> bool {
        self.batch_size >= 1
    }
}

/// Names the comment an annotation belongs to.
pub struct CommentIdComment {
    pub id: Id,
}

/// The annotations of one comment, queued for upload after the
/// comment's own batch.
pub struct NewAnnotation {
    pub comment: CommentIdComment,
    pub labelling: Option<Vec<NewLabelling>>,
    pub entities: Option<NewEntities>,
    pub moon_forms: Option<Vec<NewMoonForm>>,
}

/// One call the upload plan asks the transport to make. The plan's
/// order is binding.
pub enum UploadAction {
    /// Insert these comments (duplicate ids are rejected remotely).
    PutBatch(Vec<NewComment>),
    /// Upsert these comments by id.
    SyncBatch(Vec<NewComment>),
    /// Upload the audio file at this path for this comment.
    UploadAudio(Id, String),
    /// Upload these annotations.
    AnnotationBatch(Vec<NewAnnotation>),
}

/// Whether an action is a comment batch call.
pub open spec fn spec_is_comment_batch(a: UploadAction) -> bool {
    a is PutBatch || a is SyncBatch
}

/// The comments an action carries, empty for non-batch actions.
pub open spec fn spec_batch_payload(a: UploadAction) -> Seq<NewComment> {
    match a {
        UploadAction::PutBatch(v) => v@,
        UploadAction::SyncBatch(v) => v@,
        _ => Seq::empty(),
    }
}

/// The comments of all insert batches, in plan order.
pub open spec fn spec_put_payloads(acts: Seq<UploadAction>) -> Seq<NewComment>
    decreases acts.len(),
{
    if acts.len() == 0 {
        Seq::empty()
    } else {
        spec_put_payloads(acts.drop_last()) + (match acts.last() {
            UploadAction::PutBatch(v) => v@,
            _ => Seq::empty(),
        })
    }
}

/// The comments of all upsert batches, in plan order.
pub open spec fn spec_sync_payloads(acts: Seq<UploadAction>) -> Seq<NewComment>
    decreases acts.len(),
{
    if acts.len() == 0 {
        Seq::empty()
    } else {
        spec_sync_payloads(acts.drop_last()) + (match acts.last() {
            UploadAction::SyncBatch(v) => v@,
            _ => Seq::empty(),
        })
    }
}

/// The annotations of all annotation batches, in plan order.
pub open spec fn spec_annotation_payloads(acts: Seq<UploadAction>) -> Seq<NewAnnotation>
    decreases acts.len(),
{
    if acts.len() == 0 {
        Seq::empty()
    } else {
        spec_annotation_payloads(acts.drop_last()) + (match acts.last() {
            UploadAction::AnnotationBatch(v) => v@,
            _ => Seq::empty(),
        })
    }
}

/// The audio uploads of a plan, in plan order.
pub open spec fn spec_audio_entries(acts: Seq<UploadAction>) -> Seq<(Id, String)>
    decreases acts.len(),
{
    if acts.len() == 0 {
        Seq::empty()
    } else {
        spec_audio_entries(acts.drop_last()) + (match acts.last() {
            UploadAction::UploadAudio(id, path) => Seq::empty().push((id, path)),
            _ => Seq::empty(),
        })
    }
}

/// How many comment batch calls a plan makes.
pub open spec fn spec_batch_count(acts: Seq<UploadAction>) -> int
    decreases acts.len(),
{
    if acts.len() == 0 {
        0
    } else {
        spec_batch_count(acts.drop_last()) + (if spec_is_comment_batch(acts.last()) {
            1int
        } else {
            0int
        })
    }
}

/// Whether some comment in `v` has the id `id`.
pub open spec fn spec_comments_contain(v: Seq<NewComment>, id: Seq<char>) -> bool {
    exists|m: int| 0 <= m < v.len() && (#[trigger] v[m]).id@ == id
}

/// The attachment ordering invariant: every audio upload is preceded by
/// a comment batch that carries the comment the audio belongs to.
pub open spec fn spec_audio_after_batch(acts: Seq<UploadAction>) -> bool {
    forall|k: int|
        0 <= k < acts.len() ==> ((#[trigger] acts[k]) matches UploadAction::UploadAudio(id, _)
            ==> exists|j: int|
            0 <= j < k && spec_comments_contain(spec_batch_payload(#[trigger] acts[j]), id@))
}

/// Whether `seen` holds an id with the characters `id`.
pub open spec fn spec_seen_contains(seen: Seq<Id>, id: Seq<char>) -> bool {
    exists|i: int| 0 <= i < seen.len() && (#[trigger] seen[i])@ == id
}

fn seen_contains(seen: &Vec<Id>, id: &Id) -> (r: bool)
    ensures
        r == spec_seen_contains(seen@, id@),
{
    let len = seen.len();
    let mut i: usize = 0;
    while i < len
        invariant
            0 <= i <= len,
            len == seen@.len(),
            forall|j: int| 0 <= j < i ==> (#[trigger] seen@[j])@ != id@,
        decreases len - i,
    {
        if seen[i].0 == id.0 {
            proof {
                assert((#[trigger] seen@[i as int])@ == id@);
            }
            return true;
        }
        i = i + 1;
    }
    false
}

proof fn lemma_payloads_push(acts: Seq<UploadAction>, a: UploadAction)
    ensures
        spec_put_payloads(acts.push(a)) == spec_put_payloads(acts) + (match a {
            UploadAction::PutBatch(v) => v@,
            _ => Seq::empty(),
        }),
        spec_sync_payloads(acts.push(a)) == spec_sync_payloads(acts) + (match a {
            UploadAction::SyncBatch(v) => v@,
            _ => Seq::empty(),
        }),
        spec_annotation_payloads(acts.push(a)) == spec_annotation_payloads(acts) + (match a {
            UploadAction::AnnotationBatch(v) => v@,
            _ => Seq::empty(),
        }),
        spec_audio_entries(acts.push(a)) == spec_audio_entries(acts) + (match a {
            UploadAction::UploadAudio(id, path) => Seq::empty().push((id, path)),
            _ => Seq::empty(),
        }),
        spec_batch_count(acts.push(a)) == spec_batch_count(acts) + (if spec_is_comment_batch(a) {
            1int
        } else {
            0int
        }),
{
    assert(acts.push(a).drop_last() =~= acts);
    assert(acts.push(a).last() == a);
}

/// Concatenation distributes over all the plan projections.
pub proof fn lemma_payloads_concat(x: Seq<UploadAction>, y: Seq<UploadAction>)
    ensures
        spec_put_payloads(x + y) == spec_put_payloads(x) + spec_put_payloads(y),
        spec_sync_payloads(x + y) == spec_sync_payloads(x) + spec_sync_payloads(y),
        spec_annotation_payloads(x + y) == spec_annotation_payloads(x) + spec_annotation_payloads(
            y,
        ),
        spec_audio_entries(x + y) == spec_audio_entries(x) + spec_audio_entries(y),
        spec_batch_count(x + y) == spec_batch_count(x) + spec_batch_count(y),
    decreases y.len(),
{
    if y.len() == 0 {
        assert(x + y =~= x);
        assert(spec_put_payloads(x) + spec_put_payloads(y) =~= spec_put_payloads(x));
        assert(spec_sync_payloads(x) + spec_sync_payloads(y) =~= spec_sync_payloads(x));
        assert(spec_annotation_payloads(x) + spec_annotation_payloads(y)
            =~= spec_annotation_payloads(x));
        assert(spec_audio_entries(x) + spec_audio_entries(y) =~= spec_audio_entries(x));
    } else {
        lemma_payloads_concat(x, y.drop_last());
        assert((x + y).drop_last() =~= x + y.drop_last());
        assert((x + y).last() == y.last());
        assert(spec_put_payloads(x) + spec_put_payloads(y.drop_last()) + (match y.last() {
            UploadAction::PutBatch(v) => v@,
            _ => Seq::empty(),
        }) =~= spec_put_payloads(x) + spec_put_payloads(y));
        assert(spec_sync_payloads(x) + spec_sync_payloads(y.drop_last()) + (match y.last() {
            UploadAction::SyncBatch(v) => v@,
            _ => Seq::empty(),
        }) =~= spec_sync_payloads(x) + spec_sync_payloads(y));
        assert(spec_annotation_payloads(x) + spec_annotation_payloads(y.drop_last()) + (
        match y.last() {
            UploadAction::AnnotationBatch(v) => v@,
            _ => Seq::empty(),
        }) =~= spec_annotation_payloads(x) + spec_annotation_payloads(y));
        assert(spec_audio_entries(x) + spec_audio_entries(y.drop_last()) + (match y.last() {
            UploadAction::UploadAudio(id, path) => Seq::empty().push((id, path)),
            _ => Seq::empty(),
        }) =~= spec_audio_entries(x) + spec_audio_entries(y));
    }
}

/// The attachment ordering invariant survives concatenation of plans
/// that each satisfy it.
pub proof fn lemma_audio_order_concat(x: Seq<UploadAction>, y: Seq<UploadAction>)
    requires
        spec_audio_after_batch(x),
        spec_audio_after_batch(y),
    ensures
        spec_audio_after_batch(x + y),
{
    assert forall|k: int|
        0 <= k < (x + y).len() implies ((#[trigger] (x + y)[k])
        matches UploadAction::UploadAudio(id, _) ==> exists|j: int|
        0 <= j < k && spec_comments_contain(spec_batch_payload(#[trigger] (x + y)[j]), id@)) by {
        match (x + y)[k] {
            UploadAction::UploadAudio(id, _) => {
                if k < x.len() {
                    assert(x[k] == (x + y)[k]);
                    let j = choose|j: int|
                        0 <= j < k && spec_comments_contain(
                            spec_batch_payload(#[trigger] x[j]),
                            id@,
                        );
                    assert((x + y)[j] == x[j]);
                    assert(spec_comments_contain(spec_batch_payload((x + y)[j]), id@));
                } else {
                    let ky = k - x.len();
                    assert(y[ky] == (x + y)[k]);
                    let j = choose|j: int|
                        0 <= j < ky && spec_comments_contain(
                            spec_batch_payload(#[trigger] y[j]),
                            id@,
                        );
                    assert((x + y)[j + x.len()] == y[j]);
                    assert(spec_comments_contain(spec_batch_payload((x + y)[j + x.len()]), id@));
                }
            },
            _ => {},
        }
    }
}

/// The uploader's accumulation state between records.
pub struct Uploader {
    pub config: UploadConfig,
    /// Comments waiting for the insert endpoint.
    pub to_put: Vec<NewComment>,
    /// Comments waiting for the upsert endpoint.
    pub to_sync: Vec<NewComment>,
    /// Annotations waiting for their comments' batch to be accepted.
    pub annotations: Vec<NewAnnotation>,
    /// Audio attachments waiting for their comments' batch, as
    /// `(comment id, file path)`.
    pub audio: Vec<(Id, String)>,
    /// Ids seen so far, for duplicate routing.
    pub seen: Vec<Id>,
}

impl Uploader {
    /// The state invariant: buffers stay below the batch size, and every
    /// queued audio attachment belongs to a comment still pending.
    pub open spec fn wf(&self) -> bool {
        &&& self.config.wf()
        &&& self.to_put@.len() + self.to_sync@.len() < self.config.batch_size
        &&& (self.config.has_dataset ==> self.annotations@.len() < self.config.batch_size)
        &&& (!self.config.has_dataset ==> self.annotations@.len() == 0)
        &&& forall|k: int|
            0 <= k < self.audio@.len() ==> (spec_comments_contain(
                self.to_put@,
                (#[trigger] self.audio@[k]).0@,
            ) || spec_comments_contain(self.to_sync@, self.audio@[k].0@))
    }

    /// A fresh uploader with empty buffers.
    pub fn new(config: UploadConfig) -> (r: Uploader)
        requires
            config.wf(),
        ensures
            r.wf(),
            r.config == config,
            r.to_put@.len() == 0,
            r.to_sync@.len() == 0,
            r.annotations@.len() == 0,
            r.audio@.len() == 0,
            r.seen@.len() == 0,
    {
        Uploader {
            config,
            to_put: Vec::new(),
            to_sync: Vec::new(),
            annotations: Vec::new(),
            audio: Vec::new(),
            seen: Vec::new(),
        }
    }

    /// Whether the next record with this id goes to the upsert path.
    pub open spec fn spec_routes_to_sync(&self, id: Seq<char>) -> bool {
        self.config.overwrite || (self.config.allow_duplicates && spec_seen_contains(
            self.seen@,
            id,
        ))
    }

    /// The insert buffer after routing `c`, before any flush.
    pub open spec fn spec_put_after_buffer(&self, c: NewAnnotatedComment) -> Seq<NewComment> {
        if self.spec_routes_to_sync(c.comment.id@) {
            self.to_put@
        } else {
            self.to_put@.push(c.comment)
        }
    }

    /// The upsert buffer after routing `c`, before any flush.
    pub open spec fn spec_sync_after_buffer(&self, c: NewAnnotatedComment) -> Seq<NewComment> {
        if self.spec_routes_to_sync(c.comment.id@) {
            self.to_sync@.push(c.comment)
        } else {
            self.to_sync@
        }
    }

    /// The audio queue after accepting `c`, before any flush.
    pub open spec fn spec_audio_after_buffer(&self, c: NewAnnotatedComment) -> Seq<(Id, String)> {
        match c.audio_path {
            Option::Some(path) => self.audio@.push((c.comment.id, path)),
            Option::None => self.audio@,
        }
    }

    /// Whether accepting `c` queues an annotation: only when a dataset is
    /// attached and the record carries annotations.
    pub open spec fn spec_adds_annotation(&self, c: NewAnnotatedComment) -> bool {
        self.config.has_dataset && c.spec_has_annotations()
    }

    /// How many annotations are queued after accepting `c`, before any
    /// flush.
    pub open spec fn spec_annotations_after_buffer_len(&self, c: NewAnnotatedComment) -> int {
        self.annotations@.len() + (if self.spec_adds_annotation(c) {
            1int
        } else {
            0int
        })
    }

    /// Whether accepting `c` makes the pending comments reach the batch
    /// size, flushing them.
    pub open spec fn spec_flushes_comments(&self, c: NewAnnotatedComment) -> bool {
        self.spec_put_after_buffer(c).len() + self.spec_sync_after_buffer(c).len()
            >= self.config.batch_size
    }

    /// Whether accepting `c` makes the pending annotations reach the
    /// batch size, flushing the pending comments and then the
    /// annotations.
    pub open spec fn spec_flushes_annotations(&self, c: NewAnnotatedComment) -> bool {
        self.config.has_dataset && self.spec_annotations_after_buffer_len(c)
            >= self.config.batch_size
    }

    /// Emits the pending comment batches and the audio uploads that
    /// waited on them: the insert batch first, then the upsert batch,
    /// then the audio, leaving all three buffers empty.
    fn flush_comments(&mut self) -> (acts: Vec<UploadAction>)
        requires
            old(self).config.wf(),
            forall|k: int|
                0 <= k < old(self).audio@.len() ==> (spec_comments_contain(
                    old(self).to_put@,
                    (#[trigger] old(self).audio@[k]).0@,
                ) || spec_comments_contain(old(self).to_sync@, old(self).audio@[k].0@)),
        ensures
            final(self).config == old(self).config,
            final(self).to_put@.len() == 0,
            final(self).to_sync@.len() == 0,
            final(self).audio@.len() == 0,
            final(self).annotations == old(self).annotations,
            final(self).seen == old(self).seen,
            spec_put_payloads(acts@) == old(self).to_put@,
            spec_sync_payloads(acts@) == old(self).to_sync@,
            spec_audio_entries(acts@) == old(self).audio@,
            spec_annotation_payloads(acts@).len() == 0,
            spec_batch_count(acts@) == (if old(self).to_put@.len() > 0 {
                1int
            } else {
                0int
            }) + (if old(self).to_sync@.len() > 0 {
                1int
            } else {
                0int
            }),
            spec_audio_after_batch(acts@),
            forall|k: int|
                0 <= k < acts@.len() && spec_is_comment_batch(#[trigger] acts@[k]) ==> (
                spec_batch_payload(acts@[k]) == old(self).to_put@ || spec_batch_payload(acts@[k])
                    == old(self).to_sync@),
            forall|k: int|
                0 <= k < acts@.len() && spec_is_comment_batch(#[trigger] acts@[k])
                    ==> spec_batch_payload(acts@[k]).len() > 0,
    {
        let mut acts: Vec<UploadAction> = Vec::new();
        let mut put: Vec<NewComment> = Vec::new();
        core::mem::swap(&mut put, &mut self.to_put);
        let mut syncs: Vec<NewComment> = Vec::new();
        core::mem::swap(&mut syncs, &mut self.to_sync);
        let mut audio: Vec<(Id, String)> = Vec::new();
        core::mem::swap(&mut audio, &mut self.audio);
        let ghost old_put = put@;
        let ghost old_sync = syncs@;
        let ghost old_audio = audio@;
        proof {
            assert(spec_put_payloads(acts@) =~= Seq::<NewComment>::empty());
            assert(spec_sync_payloads(acts@) =~= Seq::<NewComment>::empty());
            assert(spec_annotation_payloads(acts@) =~= Seq::<NewAnnotation>::empty());
            assert(spec_audio_entries(acts@) =~= Seq::<(Id, String)>::empty());
            assert(spec_batch_count(acts@) == 0);
        }
        if put.len() > 0 {
            let ghost prev = acts@;
            acts.push(UploadAction::PutBatch(put));
            proof {
                lemma_payloads_push(prev, acts@.last());
            }
        }
        if syncs.len() > 0 {
            let ghost prev = acts@;
            acts.push(UploadAction::SyncBatch(syncs));
            proof {
                lemma_payloads_push(prev, acts@.last());
            }
        }
        let ghost batch_prefix = acts@;
        let mut moved: usize = 0;
        while moved < audio.len()
            invariant
                0 <= moved <= audio@.len(),
                audio@ == old_audio,
                acts@.len() == batch_prefix.len() + moved,
                forall|j: int| 0 <= j < batch_prefix.len() ==> #[trigger] acts@[j]
                    == batch_prefix[j],
                forall|j: int|
                    batch_prefix.len() <= j < acts@.len() ==> ((#[trigger] acts@[j])
                        matches UploadAction::UploadAudio(id, path) && (id, path) == old_audio[j
                        - batch_prefix.len()]),
                spec_put_payloads(acts@) == old_put,
                spec_sync_payloads(acts@) == old_sync,
                spec_audio_entries(acts@) == old_audio.take(moved as int),
                spec_annotation_payloads(acts@).len() == 0,
                spec_batch_count(acts@) == (if old_put.len() > 0 {
                    1int
                } else {
                    0int
                }) + (if old_sync.len() > 0 {
                    1int
                } else {
                    0int
                }),
                spec_audio_after_batch(acts@),
                batch_prefix.len() == (if old_put.len() > 0 {
                    1int
                } else {
                    0int
                }) + (if old_sync.len() > 0 {
                    1int
                } else {
                    0int
                }),
                (old_put.len() > 0 ==> (batch_prefix[0] matches UploadAction::PutBatch(v) && v@
                    == old_put)),
                (old_sync.len() > 0 ==> ({
                    let at: int = if old_put.len() > 0 {
                        1int
                    } else {
                        0int
                    };
                    batch_prefix[at] matches UploadAction::SyncBatch(v) && v@ == old_sync
                })),
                forall|k: int|
                    0 <= k < old_audio.len() ==> (spec_comments_contain(
                        old_put,
                        (#[trigger] old_audio[k]).0@,
                    ) || spec_comments_contain(old_sync, old_audio[k].0@)),
                forall|k: int|
                    0 <= k < acts@.len() && spec_is_comment_batch(#[trigger] acts@[k]) ==> (
                    spec_batch_payload(acts@[k]) == old_put || spec_batch_payload(acts@[k])
                        == old_sync),
                forall|k: int|
                    0 <= k < acts@.len() && spec_is_comment_batch(#[trigger] acts@[k])
                        ==> spec_batch_payload(acts@[k]).len() > 0,
            decreases audio@.len() - moved,
        {
            let entry = audio[moved].1.clone();
            let id = audio[moved].0.clone();
            proof {
                assert(old_audio.take(moved + 1).drop_last() =~= old_audio.take(moved as int));
                assert(old_audio.take(moved + 1).last() == old_audio[moved as int]);
                if spec_comments_contain(old_put, old_audio[moved as int].0@) {
                    assert(batch_prefix[0] matches UploadAction::PutBatch(v) && v@ == old_put);
                } else {
                    assert(spec_comments_contain(old_sync, old_audio[moved as int].0@));
                }
            }
            let ghost prev = acts@;
            acts.push(UploadAction::UploadAudio(id, entry));
            proof {
                lemma_payloads_push(prev, acts@.last());
                let owner = old_audio[moved as int].0@;
                let witness: int = if spec_comments_contain(old_put, owner) {
                    0int
                } else {
                    if old_put.len() > 0 {
                        1int
                    } else {
                        0int
                    }
                };
                if spec_comments_contain(old_put, owner) {
                    assert(old_put.len() > 0);
                    assert(acts@[0] == prev[0] && prev[0] == batch_prefix[0]);
                    assert(batch_prefix[0] matches UploadAction::PutBatch(v) && v@ == old_put);
                } else {
                    assert(spec_comments_contain(old_sync, owner));
                    assert(old_sync.len() > 0);
                    assert(acts@[witness] == prev[witness] && prev[witness]
                        == batch_prefix[witness]);
                    assert(batch_prefix[witness] matches UploadAction::SyncBatch(v) && v@
                        == old_sync);
                }
                assert(spec_comments_contain(spec_batch_payload(acts@[witness]), owner));
                assert forall|k: int|
                    0 <= k < acts@.len() implies ((#[trigger] acts@[k])
                    matches UploadAction::UploadAudio(aid, _) ==> exists|j: int|
                    0 <= j < k && spec_comments_contain(
                        spec_batch_payload(#[trigger] acts@[j]),
                        aid@,
                    )) by {
                    match acts@[k] {
                        UploadAction::UploadAudio(aid, _) => {
                            if k < prev.len() {
                                assert(prev[k] == acts@[k]);
                                let j = choose|j: int|
                                    0 <= j < k && spec_comments_contain(
                                        spec_batch_payload(#[trigger] prev[j]),
                                        aid@,
                                    );
                                assert(acts@[j] == prev[j]);
                                assert(spec_comments_contain(spec_batch_payload(acts@[j]), aid@));
                            } else {
                                assert(aid@ == owner);
                                assert(spec_comments_contain(
                                    spec_batch_payload(acts@[witness]),
                                    aid@,
                                ));
                            }
                        },
                        _ => {},
                    }
                }
            }
            moved = moved + 1;
        }
        proof {
            assert(old_audio.take(old_audio.len() as int) =~= old_audio);
        }
        acts
    }
}

/// Relates a record to the annotation queued for it: the annotation
/// names the record's comment and carries either the record's review
/// forms or its (normalised) labelling and entities, as configured.
pub open spec fn spec_annotation_matches(
    c: NewAnnotatedComment,
    use_moon_forms: bool,
    a: NewAnnotation,
) -> bool {
    &&& a.comment.id == c.comment.id
    &&& (use_moon_forms ==> a.labelling is None && a.entities is None && a.moon_forms
        == c.moon_forms)
    &&& (!use_moon_forms ==> ({
        &&& a.entities == c.entities
        &&& a.moon_forms is None
        &&& match c.labelling {
            Option::Some(e) => a.labelling matches Some(v)
                && crate::comment::spec_new_labellings_of(e, v@),
            Option::None => a.labelling is None,
        }
    }))
}

proof fn lemma_audio_order_push_non_audio(acts: Seq<UploadAction>, a: UploadAction)
    requires
        spec_audio_after_batch(acts),
        !(a is UploadAudio),
    ensures
        spec_audio_after_batch(acts.push(a)),
{
    assert(acts.push(a) =~= acts + seq![a]);
    assert(spec_audio_after_batch(seq![a])) by {
        assert(forall|k: int| 0 <= k < 1 ==> !((#[trigger] seq![a][k]) is UploadAudio));
    }
    lemma_audio_order_concat(acts, seq![a]);
}

impl Uploader {
    /// Accepts one record and returns the calls that became due, in
    /// order.
    ///
    /// The record's annotations (when a dataset is attached) and audio
    /// attachment are queued, its comment is routed to the insert or
    /// upsert buffer — the upsert buffer when overwriting, or when
    /// duplicates are allowed and the id was already seen — and the
    /// buffers flush once the pending comments, or the pending
    /// annotations, reach the batch size. An annotation flush always
    /// flushes the pending comments (and their audio) first: an
    /// annotation is never uploaded before its comment's batch.
    #[verifier::rlimit(100)]
    pub fn push(&mut self, record: NewAnnotatedComment) -> (acts: Vec<UploadAction>)
        requires
            old(self).wf(),
        ensures
            final(self).wf(),
            final(self).config == old(self).config,
            (old(self).config.allow_duplicates && !old(self).config.overwrite ==> final(self).seen@ == old(self).seen@.push(record.comment.id)),
            (!(old(self).config.allow_duplicates && !old(self).config.overwrite) ==> final(self).seen == old(self).seen),
            spec_put_payloads(acts@) + final(self).to_put@ == old(self).spec_put_after_buffer(
                record,
            ),
            spec_sync_payloads(acts@) + final(self).to_sync@ == old(self).spec_sync_after_buffer(
                record,
            ),
            spec_audio_entries(acts@) + final(self).audio@ == old(self).spec_audio_after_buffer(
                record,
            ),
            (!old(self).spec_adds_annotation(record) ==> spec_annotation_payloads(acts@) + final(self).annotations@ == old(self).annotations@),
            (old(self).spec_adds_annotation(record) ==> ({
                let combined = spec_annotation_payloads(acts@) + final(self).annotations@;
                &&& combined.len() == old(self).annotations@.len() + 1
                &&& combined.drop_last() == old(self).annotations@
                &&& spec_annotation_matches(
                    record,
                    old(self).config.use_moon_forms,
                    combined.last(),
                )
            })),
            (old(self).spec_flushes_comments(record) || old(self).spec_flushes_annotations(record)
                ==> final(self).to_put@.len() == 0 && final(self).to_sync@.len() == 0 && final(self).audio@.len() == 0),
            (!(old(self).spec_flushes_comments(record) || old(self).spec_flushes_annotations(
                record,
            )) ==> final(self).to_put@ == old(self).spec_put_after_buffer(record) && final(self).to_sync@ == old(self).spec_sync_after_buffer(record) && final(self).audio@ == old(self).spec_audio_after_buffer(record)),
            (old(self).spec_flushes_annotations(record) ==> final(self).annotations@.len() == 0),
            spec_batch_count(acts@) == (if old(self).spec_flushes_comments(record) || old(self).spec_flushes_annotations(record) {
                (if old(self).spec_put_after_buffer(record).len() > 0 {
                    1int
                } else {
                    0int
                }) + (if old(self).spec_sync_after_buffer(record).len() > 0 {
                    1int
                } else {
                    0int
                })
            } else {
                0int
            }),
            spec_audio_after_batch(acts@),
            forall|k: int|
                0 <= k < acts@.len() && spec_is_comment_batch(#[trigger] acts@[k]) ==> 1
                    <= spec_batch_payload(acts@[k]).len() <= old(self).config.batch_size,
    {
        let ghost rec = record;
        let annotated = record.has_annotations();
        let NewAnnotatedComment { comment, labelling, entities, audio_path, moon_forms } = record;
        if self.config.has_dataset && annotated {
            let ann: NewAnnotation;
            if self.config.use_moon_forms {
                ann = NewAnnotation {
                    comment: CommentIdComment { id: comment.id.clone() },
                    labelling: None,
                    entities: None,
                    moon_forms,
                };
            } else {
                let lab = match labelling {
                    Option::Some(e) => Some(e.into_new_labellings()),
                    Option::None => None,
                };
                ann = NewAnnotation {
                    comment: CommentIdComment { id: comment.id.clone() },
                    labelling: lab,
                    entities,
                    moon_forms: None,
                };
            }
            proof {
                assert(spec_annotation_matches(rec, self.config.use_moon_forms, ann));
            }
            self.annotations.push(ann);
        }
        match audio_path {
            Option::Some(path) => {
                self.audio.push((comment.id.clone(), path));
            },
            Option::None => {},
        }
        let mut route_sync = false;
        if self.config.overwrite {
            route_sync = true;
        } else if self.config.allow_duplicates {
            route_sync = seen_contains(&self.seen, &comment.id);
            self.seen.push(comment.id.clone());
        }
        if route_sync {
            self.to_sync.push(comment);
        } else {
            self.to_put.push(comment);
        }
        proof {
            assert(self.to_put@ == old(self).spec_put_after_buffer(rec));
            assert(self.to_sync@ == old(self).spec_sync_after_buffer(rec));
            assert(self.audio@ == old(self).spec_audio_after_buffer(rec));
            assert forall|k: int|
                0 <= k < self.audio@.len() implies (spec_comments_contain(
                self.to_put@,
                (#[trigger] self.audio@[k]).0@,
            ) || spec_comments_contain(self.to_sync@, self.audio@[k].0@)) by {
                if k < old(self).audio@.len() {
                    assert(old(self).audio@[k] == self.audio@[k]);
                    if spec_comments_contain(old(self).to_put@, self.audio@[k].0@) {
                        let m = choose|m: int|
                            0 <= m < old(self).to_put@.len() && (#[trigger] old(
                                self,
                            ).to_put@[m]).id@ == self.audio@[k].0@;
                        assert((#[trigger] self.to_put@[m]).id@ == self.audio@[k].0@);
                    } else {
                        let m = choose|m: int|
                            0 <= m < old(self).to_sync@.len() && (#[trigger] old(
                                self,
                            ).to_sync@[m]).id@ == self.audio@[k].0@;
                        assert((#[trigger] self.to_sync@[m]).id@ == self.audio@[k].0@);
                    }
                } else {
                    assert(self.audio@[k].0@ == rec.comment.id@);
                    if old(self).spec_routes_to_sync(rec.comment.id@) {
                        assert((#[trigger] self.to_sync@[self.to_sync@.len() - 1]).id@
                            == rec.comment.id@);
                    } else {
                        assert((#[trigger] self.to_put@[self.to_put@.len() - 1]).id@
                            == rec.comment.id@);
                    }
                }
            }
        }
        let mut acts: Vec<UploadAction> = Vec::new();
        proof {
            assert(spec_put_payloads(acts@) =~= Seq::<NewComment>::empty());
            assert(spec_sync_payloads(acts@) =~= Seq::<NewComment>::empty());
            assert(spec_annotation_payloads(acts@) =~= Seq::<NewAnnotation>::empty());
            assert(spec_audio_entries(acts@) =~= Seq::<(Id, String)>::empty());
        }
        if self.to_put.len() + self.to_sync.len() >= self.config.batch_size {
            let mut flushed = self.flush_comments();
            let ghost a0 = acts@;
            let ghost f0 = flushed@;
            acts.append(&mut flushed);
            proof {
                assert(acts@ =~= a0 + f0);
                lemma_payloads_concat(a0, f0);
                lemma_audio_order_concat(a0, f0);
            }
        }
        if self.config.has_dataset && self.annotations.len() >= self.config.batch_size {
            let mut flushed = self.flush_comments();
            let ghost a1 = acts@;
            let ghost f1 = flushed@;
            acts.append(&mut flushed);
            proof {
                assert(acts@ =~= a1 + f1);
                lemma_payloads_concat(a1, f1);
                lemma_audio_order_concat(a1, f1);
            }
            let mut anns: Vec<NewAnnotation> = Vec::new();
            core::mem::swap(&mut anns, &mut self.annotations);
            let ghost a2 = acts@;
            acts.push(UploadAction::AnnotationBatch(anns));
            proof {
                lemma_payloads_push(a2, acts@.last());
                lemma_audio_order_push_non_audio(a2, acts@.last());
            }
        }
        acts
    }

    /// Ends the input: flushes whatever is pending — the comment batches
    /// and their audio first, then the remaining annotations — leaving
    /// every buffer empty.
    pub fn finish(&mut self) -> (acts: Vec<UploadAction>)
        requires
            old(self).wf(),
        ensures
            final(self).wf(),
            final(self).config == old(self).config,
            final(self).seen == old(self).seen,
            final(self).to_put@.len() == 0,
            final(self).to_sync@.len() == 0,
            final(self).audio@.len() == 0,
            final(self).annotations@.len() == 0,
            spec_put_payloads(acts@) == old(self).to_put@,
            spec_sync_payloads(acts@) == old(self).to_sync@,
            spec_audio_entries(acts@) == old(self).audio@,
            spec_annotation_payloads(acts@) == old(self).annotations@,
            spec_batch_count(acts@) == (if old(self).to_put@.len() > 0 {
                1int
            } else {
                0int
            }) + (if old(self).to_sync@.len() > 0 {
                1int
            } else {
                0int
            }),
            spec_audio_after_batch(acts@),
            forall|k: int|
                0 <= k < acts@.len() && spec_is_comment_batch(#[trigger] acts@[k]) ==> 1
                    <= spec_batch_payload(acts@[k]).len() <= old(self).config.batch_size,
    {
        let mut acts = self.flush_comments();
        if self.config.has_dataset && self.annotations.len() > 0 {
            let mut anns: Vec<NewAnnotation> = Vec::new();
            core::mem::swap(&mut anns, &mut self.annotations);
            let ghost a0 = acts@;
            acts.push(UploadAction::AnnotationBatch(anns));
            proof {
                lemma_payloads_push(a0, acts@.last());
                lemma_audio_order_push_non_audio(a0, acts@.last());
            }
        }
        acts
    }
}

/// Rejects inputs holding the same comment id twice: the error carries
/// an id that occurs more than once. Run before any upload when
/// duplicates are not allowed, so the rejection happens before any call
/// is made.
pub fn check_no_duplicate_ids(records: &Vec<NewAnnotatedComment>) -> (r: Result<(), Id>)
    ensures
        r is Ok <==> (forall|i: int, j: int|
            0 <= i < j < records@.len() ==> (#[trigger] records@[i]).comment.id@ != (
            #[trigger] records@[j]).comment.id@),
        (r matches Err(id) ==> exists|i: int, j: int|
            0 <= i < j < records@.len() && (#[trigger] records@[i]).comment.id@ == (
            #[trigger] records@[j]).comment.id@ && records@[j].comment.id@ == id@),
{
    let mut seen: Vec<Id> = Vec::new();
    let len = records.len();
    let mut k: usize = 0;
    while k < len
        invariant
            0 <= k <= len,
            len == records@.len(),
            seen@.len() == k,
            forall|i: int| 0 <= i < k ==> #[trigger] seen@[i] == records@[i].comment.id,
            forall|i: int, j: int|
                0 <= i < j < k ==> (#[trigger] records@[i]).comment.id@ != (
                #[trigger] records@[j]).comment.id@,
        decreases len - k,
    {
        let id = &records[k].comment.id;
        if seen_contains(&seen, id) {
            proof {
                let i = choose|i: int| 0 <= i < seen@.len() && (#[trigger] seen@[i])@ == id@;
                assert((#[trigger] records@[i]).comment.id@ == records@[k as int].comment.id@);
            }
            return Err(id.clone());
        }
        proof {
            assert forall|i: int|
                0 <= i < k implies (#[trigger] records@[i]).comment.id@ != records@[
                k as int].comment.id@ by {
                assert(seen@[i] == records@[i].comment.id);
                assert((#[trigger] seen@[i])@ != records@[k as int].comment.id@);
            }
        }
        seen.push(id.clone());
        k = k + 1;
    }
    Ok(())
}

/// Whether record `i` of an input routes to the upsert path: always
/// when overwriting, and otherwise exactly when duplicates are allowed
/// and an earlier record carries the same id.
pub open spec fn spec_record_synced(
    config: UploadConfig,
    records: Seq<NewAnnotatedComment>,
    i: int,
) -> bool {
    config.overwrite || (config.allow_duplicates && exists|j: int|
        0 <= j < i && (#[trigger] records[j]).comment.id@ == records[i].comment.id@)
}

/// The comments of an input that route to the insert path, in input
/// order.
pub open spec fn spec_put_part(
    config: UploadConfig,
    records: Seq<NewAnnotatedComment>,
) -> Seq<NewComment>
    decreases records.len(),
{
    if records.len() == 0 {
        Seq::empty()
    } else {
        let prefix = spec_put_part(config, records.drop_last());
        if !spec_record_synced(config, records, records.len() - 1) {
            prefix.push(records.last().comment)
        } else {
            prefix
        }
    }
}

/// The comments of an input that route to the upsert path, in input
/// order.
pub open spec fn spec_sync_part(
    config: UploadConfig,
    records: Seq<NewAnnotatedComment>,
) -> Seq<NewComment>
    decreases records.len(),
{
    if records.len() == 0 {
        Seq::empty()
    } else {
        let prefix = spec_sync_part(config, records.drop_last());
        if spec_record_synced(config, records, records.len() - 1) {
            prefix.push(records.last().comment)
        } else {
            prefix
        }
    }
}

/// The comments of an input, in input order.
pub open spec fn spec_input_comments(records: Seq<NewAnnotatedComment>) -> Seq<NewComment> {
    records.map_values(|r: NewAnnotatedComment| r.comment)
}

/// The two routing parts partition the input: every record's comment
/// stands in exactly one of them — between them they hold exactly the
/// input's comments, each as often as the input holds it.
pub proof fn lemma_parts_partition_input(config: UploadConfig, records: Seq<NewAnnotatedComment>)
    ensures
        spec_put_part(config, records).len() + spec_sync_part(config, records).len()
            == records.len(),
        spec_put_part(config, records).to_multiset().add(
            spec_sync_part(config, records).to_multiset(),
        ) =~= spec_input_comments(records).to_multiset(),
    decreases records.len(),
{
    broadcast use vstd::seq_lib::group_to_multiset_ensures;

    if records.len() == 0 {
        assert(spec_input_comments(records) =~= Seq::<NewComment>::empty());
        assert(spec_put_part(config, records).to_multiset().len() == 0);
        assert(spec_sync_part(config, records).to_multiset().len() == 0);
        assert(spec_input_comments(records).to_multiset().len() == 0);
    } else {
        let rest = records.drop_last();
        let c = records.last().comment;
        lemma_parts_partition_input(config, rest);
        assert(spec_input_comments(records) =~= spec_input_comments(rest).push(c));
        assert(spec_input_comments(records).to_multiset() =~= spec_input_comments(
            rest,
        ).to_multiset().insert(c));
        if spec_record_synced(config, records, records.len() - 1) {
            assert(spec_sync_part(config, records).to_multiset() =~= spec_sync_part(
                config,
                rest,
            ).to_multiset().insert(c));
            assert(spec_put_part(config, records).to_multiset().add(
                spec_sync_part(config, records).to_multiset(),
            ) =~= spec_put_part(config, rest).to_multiset().add(
                spec_sync_part(config, rest).to_multiset(),
            ).insert(c));
        } else {
            assert(spec_put_part(config, records).to_multiset() =~= spec_put_part(
                config,
                rest,
            ).to_multiset().insert(c));
            assert(spec_put_part(config, records).to_multiset().add(
                spec_sync_part(config, records).to_multiset(),
            ) =~= spec_put_part(config, rest).to_multiset().add(
                spec_sync_part(config, rest).to_multiset(),
            ).insert(c));
        }
    }
}

/// Duplicate-id routing: with duplicates allowed and no overwriting,
/// the first record with a given id routes to the insert path and every
/// repeat routes to the upsert path; with neither flag set no record
/// routes to the upsert path; overwriting routes everything there.
pub proof fn lemma_duplicate_routing(
    config: UploadConfig,
    records: Seq<NewAnnotatedComment>,
    i: int,
)
    requires
        0 <= i < records.len(),
    ensures
        (config.allow_duplicates && !config.overwrite ==> (spec_record_synced(config, records, i)
            <==> exists|j: int|
            0 <= j < i && (#[trigger] records[j]).comment.id@ == records[i].comment.id@)),
        (!config.allow_duplicates && !config.overwrite ==> !spec_record_synced(
            config,
            records,
            i,
        )),
        (config.overwrite ==> spec_record_synced(config, records, i)),
{
}

/// `n / b` rounded upward.
pub open spec fn spec_ceil_div(n: int, b: int) -> int {
    if n % b == 0 {
        n / b
    } else {
        n / b + 1
    }
}

/// Drives the uploader over a whole input: accepts every record in
/// order, then finishes.
///
/// The plan carries every record's comment in exactly one batch: the
/// insert batches carry exactly the records routed to the insert path,
/// in input order, and likewise for the upsert batches. Every batch
/// call carries between 1 and `batch_size` comments, and every audio
/// upload comes strictly after a batch carrying its comment.
///
/// When records cannot split across both paths (overwriting, or
/// duplicates not allowed) and no annotation flush can intervene (no
/// dataset attached), the plan makes exactly `ceil(R / batch_size)`
/// batch calls for `R` records.
#[verifier::rlimit(100)]
#[verifier::loop_isolation(false)]
pub fn plan_upload(config: UploadConfig, records: Vec<NewAnnotatedComment>) -> (acts: Vec<
    UploadAction,
>)
    requires
        config.wf(),
    ensures
        spec_put_payloads(acts@) == spec_put_part(config, records@),
        spec_sync_payloads(acts@) == spec_sync_part(config, records@),
        spec_audio_after_batch(acts@),
        forall|j: int|
            0 <= j < acts@.len() && spec_is_comment_batch(#[trigger] acts@[j]) ==> 1
                <= spec_batch_payload(acts@[j]).len() <= config.batch_size,
        ((config.overwrite || !config.allow_duplicates) && !config.has_dataset
            ==> spec_batch_count(acts@) == spec_ceil_div(
            records@.len() as int,
            config.batch_size as int,
        )),
{
    let ghost input = records@;
    let ghost cond = (config.overwrite || !config.allow_duplicates) && !config.has_dataset;
    let mut uploader = Uploader::new(config);
    let mut out: Vec<UploadAction> = Vec::new();
    let mut remaining = records;
    let ghost mut k: int = 0;
    proof {
        assert(spec_put_payloads(out@) =~= Seq::<NewComment>::empty());
        assert(spec_sync_payloads(out@) =~= Seq::<NewComment>::empty());
        assert(spec_put_part(config, input.take(0)) =~= Seq::<NewComment>::empty());
        assert(spec_sync_part(config, input.take(0)) =~= Seq::<NewComment>::empty());
    }
    while remaining.len() > 0
        invariant
            config.wf(),
            uploader.wf(),
            uploader.config == config,
            0 <= k <= input.len(),
            remaining@ =~= input.skip(k),
            spec_put_payloads(out@) + uploader.to_put@ == spec_put_part(config, input.take(k)),
            spec_sync_payloads(out@) + uploader.to_sync@ == spec_sync_part(
                config,
                input.take(k),
            ),
            (config.allow_duplicates && !config.overwrite ==> uploader.seen@.len() == k && forall|
                i: int,
            | 0 <= i < k ==> #[trigger] uploader.seen@[i] == input[i].comment.id),
            spec_audio_after_batch(out@),
            forall|j: int|
                0 <= j < out@.len() && spec_is_comment_batch(#[trigger] out@[j]) ==> 1
                    <= spec_batch_payload(out@[j]).len() <= config.batch_size,
            (cond ==> spec_batch_count(out@) * config.batch_size + uploader.to_put@.len()
                + uploader.to_sync@.len() == k),
            (cond && config.overwrite ==> uploader.to_put@.len() == 0),
            (cond && !config.overwrite ==> uploader.to_sync@.len() == 0),
        decreases remaining@.len(),
    {
        let ghost s0 = uploader;
        let record = remaining.remove(0);
        let ghost rec = record;
        proof {
            assert(rec == input[k]);
            assert(remaining@ =~= input.skip(k + 1));
        }
        let mut step = uploader.push(record);
        let ghost sacts = step@;
        let ghost o0 = out@;
        out.append(&mut step);
        proof {
            assert(out@ =~= o0 + sacts);
            lemma_payloads_concat(o0, sacts);
            lemma_audio_order_concat(o0, sacts);
            let id = rec.comment.id@;
            let synced = spec_record_synced(config, input.take(k + 1), k);
            assert(input.take(k + 1)[k] == rec);
            if config.allow_duplicates && !config.overwrite {
                if spec_seen_contains(s0.seen@, id) {
                    let i = choose|i: int|
                        0 <= i < s0.seen@.len() && (#[trigger] s0.seen@[i])@ == id;
                    assert((#[trigger] input.take(k + 1)[i]).comment.id@ == input.take(k + 1)[
                        k].comment.id@);
                    assert(synced);
                }
                if synced {
                    let j = choose|j: int|
                        0 <= j < k && (#[trigger] input.take(k + 1)[j]).comment.id@ == input.take(
                            k + 1,
                        )[k].comment.id@;
                    assert((#[trigger] s0.seen@[j])@ == id);
                    assert(spec_seen_contains(s0.seen@, id));
                }
            }
            assert(s0.spec_routes_to_sync(id) == synced);
            assert(input.take(k + 1).drop_last() =~= input.take(k));
            assert(input.take(k + 1).last() == rec);
            if synced {
                assert(spec_put_part(config, input.take(k + 1)) == spec_put_part(
                    config,
                    input.take(k),
                ));
                assert(spec_sync_part(config, input.take(k + 1)) == spec_sync_part(
                    config,
                    input.take(k),
                ).push(rec.comment));
            } else {
                assert(spec_put_part(config, input.take(k + 1)) == spec_put_part(
                    config,
                    input.take(k),
                ).push(rec.comment));
                assert(spec_sync_part(config, input.take(k + 1)) == spec_sync_part(
                    config,
                    input.take(k),
                ));
            }
            assert((spec_put_payloads(o0) + spec_put_payloads(sacts)) + uploader.to_put@
                =~= spec_put_payloads(o0) + (spec_put_payloads(sacts) + uploader.to_put@));
            assert((spec_sync_payloads(o0) + spec_sync_payloads(sacts)) + uploader.to_sync@
                =~= spec_sync_payloads(o0) + (spec_sync_payloads(sacts) + uploader.to_sync@));
            if synced {
                assert(spec_put_payloads(o0) + s0.spec_put_after_buffer(rec) =~= spec_put_part(
                    config,
                    input.take(k + 1),
                ));
                assert(spec_sync_payloads(o0) + s0.spec_sync_after_buffer(rec) =~= (
                spec_sync_payloads(o0) + s0.to_sync@).push(rec.comment));
            } else {
                assert(spec_put_payloads(o0) + s0.spec_put_after_buffer(rec) =~= (
                spec_put_payloads(o0) + s0.to_put@).push(rec.comment));
                assert(spec_sync_payloads(o0) + s0.spec_sync_after_buffer(rec) =~= spec_sync_part(
                    config,
                    input.take(k + 1),
                ));
            }
            assert(spec_put_payloads(out@) + uploader.to_put@ == spec_put_part(
                config,
                input.take(k + 1),
            ));
            assert(spec_sync_payloads(out@) + uploader.to_sync@ == spec_sync_part(
                config,
                input.take(k + 1),
            ));
            if cond {
                let b = config.batch_size as int;
                let count0 = spec_batch_count(o0);
                let pending0 = s0.to_put@.len() + s0.to_sync@.len();
                let pending1 = s0.spec_put_after_buffer(rec).len() + s0.spec_sync_after_buffer(
                    rec,
                ).len();
                assert(pending1 == pending0 + 1);
                assert(!s0.spec_flushes_annotations(rec));
                if s0.spec_flushes_comments(rec) {
                    assert(pending1 == b);
                    assert(spec_batch_count(sacts) == 1);
                    assert((count0 + 1) * b == count0 * b + b) by (nonlinear_arith);
                    assert(spec_batch_count(out@) * b + uploader.to_put@.len()
                        + uploader.to_sync@.len() == k + 1);
                } else {
                    assert(spec_batch_count(sacts) == 0);
                    assert(spec_batch_count(out@) * b + uploader.to_put@.len()
                        + uploader.to_sync@.len() == k + 1);
                }
            }
            k = k + 1;
        }
    }
    proof {
        assert(input.take(k) =~= input);
        assert(input.skip(k).len() == 0);
    }
    let ghost s1 = uploader;
    let mut fin = uploader.finish();
    let ghost facts = fin@;
    let ghost o1 = out@;
    out.append(&mut fin);
    proof {
        assert(out@ =~= o1 + facts);
        lemma_payloads_concat(o1, facts);
        lemma_audio_order_concat(o1, facts);
        assert(spec_put_payloads(out@) =~= spec_put_part(config, input));
        assert(spec_sync_payloads(out@) =~= spec_sync_part(config, input));
        if cond {
            let b = config.batch_size as int;
            let count1 = spec_batch_count(o1);
            let p = s1.to_put@.len() + s1.to_sync@.len();
            assert(count1 * b + p == input.len());
            assert(0 <= p < b);
            vstd::arithmetic::div_mod::lemma_fundamental_div_mod_converse(
                input.len() as int,
                b,
                count1,
                p as int,
            );
            if p == 0 {
                assert(s1.to_put@.len() == 0 && s1.to_sync@.len() == 0);
                assert(spec_batch_count(facts) == 0);
                assert(spec_batch_count(out@) == spec_ceil_div(input.len() as int, b));
            } else {
                assert(spec_batch_count(facts) == 1);
                assert(input.len() as int % b != 0);
                assert(spec_batch_count(out@) == spec_ceil_div(input.len() as int, b));
            }
        }
    }
    out
}

} // verus!
