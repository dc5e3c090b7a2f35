//! Staging the images of a message for upload with its mirror.
//!
//! Only images are mirrored. They are downloaded one by one, in the order in
//! which the message holds them, into a scratch directory of the message, for
//! as long as they fit into the upload budget: at the first image that does
//! not fit, staging stops. An image whose download fails is passed over and
//! takes nothing from the budget.

use vstd::prelude::*;
use crate::cowboard::error::CowboardError;
use crate::text::{decimal, u64_to_string};

verus! {

/// The most that the images staged for one message may weigh together, in
/// bytes: the platform takes no larger upload.
pub const UPLOAD_BUDGET: u64 = 8 * 1024 * 1024;

/// A file attached to a message.
#[derive(PartialEq, Eq, Clone, Debug)]
pub struct Attachment {
    pub filename: String,
    /// The size of the file in bytes.
    pub size: u64,
    /// The width in pixels, where the file is an image.
    pub width: Option<u64>,
    /// The height in pixels, where the file is an image.
    pub height: Option<u64>,
    /// Where the file can be downloaded.
    pub url: String,
}

/// An image that was downloaded for upload: the name it had on the message and
/// where it lies now.
#[derive(PartialEq, Eq, Clone, Debug)]
pub struct StagedAttachment {
    pub original_name: String,
    pub local_path: String,
}

impl Attachment {
    /// Width and height, where the file has both.
    pub open spec fn spec_dimensions(&self) -> Option<(u64, u64)> {
        match (self.width, self.height) {
            (Some(width), Some(height)) => Some((width, height)),
            _ => None,
        }
    }

    /// Whether the file is an image, that is, has pixel dimensions.
    pub open spec fn spec_is_image(&self) -> bool {
        self.width is Some && self.height is Some
    }

    /// Width and height in pixels, where the file is an image.
    #[verifier::when_used_as_spec(spec_dimensions)]
    pub fn dimensions(&self) -> (dimensions: Option<(u64, u64)>)
        ensures
            dimensions == self.spec_dimensions(),
    {
        match self.width {
            Some(width) => match self.height {
                Some(height) => Some((width, height)),
                None => None,
            },
            None => None,
        }
    }

    /// Whether the file is an image.
    #[verifier::when_used_as_spec(spec_is_image)]
    pub fn is_image(&self) -> (yes: bool)
        ensures
            yes == self.spec_is_image(),
    {
        self.dimensions().is_some()
    }
}

/// The scratch directory of a message.
pub open spec fn scratch_dir_text(message_id: u64) -> Seq<char> {
    "cowboard/"@ + decimal(message_id as nat)
}

/// Where a file named `filename` lies in the directory `dir`.
pub open spec fn scratch_path_text(dir: Seq<char>, filename: Seq<char>) -> Seq<char> {
    dir + "/"@ + filename
}

/// The scratch directory of a message: `cowboard/` and the message's id.
pub fn scratch_dir(message_id: u64) -> (dir: String)
    ensures
        dir@ == scratch_dir_text(message_id),
{
    let mut dir = String::from_str("cowboard/");
    let id = u64_to_string(message_id);
    dir.append(id.as_str());
    dir
}

/// Where a file named `filename` lies in the directory `dir`.
pub fn scratch_path(dir: &str, filename: &str) -> (path: String)
    ensures
        path@ == scratch_path_text(dir@, filename@),
{
    let mut path = String::from_str(dir);
    path.append("/");
    path.append(filename);
    path
}

/// The first image at or after `from`, or the number of attachments where
/// there is none.
pub open spec fn next_image(attachments: Seq<Attachment>, from: int) -> int
    decreases attachments.len() - from,
{
    if from < 0 || from >= attachments.len() {
        attachments.len() as int
    } else if attachments[from].spec_is_image() {
        from
    } else {
        next_image(attachments, from + 1)
    }
}

/// Which attachments end up staged, by index and in order, when staging
/// takes up at `from` with `budget` bytes left and `downloaded[i]` says
/// whether the download of attachment `i` works.
pub open spec fn staged_from(attachments: Seq<Attachment>, downloaded: Seq<bool>, from: int, budget: u64) -> Seq<
    int,
>
    decreases attachments.len() - from,
{
    if from < 0 || from >= attachments.len() {
        Seq::empty()
    } else if !attachments[from].spec_is_image() {
        staged_from(attachments, downloaded, from + 1, budget)
    } else if attachments[from].size > budget {
        Seq::empty()
    } else if from < downloaded.len() && downloaded[from] {
        seq![from] + staged_from(
            attachments,
            downloaded,
            from + 1,
            (budget - attachments[from].size) as u64,
        )
    } else {
        staged_from(attachments, downloaded, from + 1, budget)
    }
}

/// The bytes that the attachments at `indices` weigh together.
pub open spec fn total_size(attachments: Seq<Attachment>, indices: Seq<int>) -> int
    decreases indices.len(),
{
    if indices.len() == 0 {
        0
    } else {
        attachments[indices[0]].size + total_size(attachments, indices.drop_first())
    }
}

/// What is staged is made of images, in the order of the message, each one
/// downloaded, and fits the budget.
pub proof fn lemma_staged_within_budget(attachments: Seq<Attachment>, downloaded: Seq<bool>, from: int, budget: u64)
    requires
        0 <= from,
    ensures
        ({
            let staged = staged_from(attachments, downloaded, from, budget);
            &&& total_size(attachments, staged) <= budget
            &&& forall|k: int|
                0 <= k < staged.len() ==> from <= #[trigger] staged[k] < attachments.len()
                    && attachments[staged[k]].spec_is_image() && downloaded[staged[k]]
            &&& forall|k: int, l: int| 0 <= k < l < staged.len() ==> staged[k] < staged[l]
        }),
    decreases attachments.len() - from,
{
    if from >= attachments.len() {
    } else if !attachments[from].spec_is_image() {
        lemma_staged_within_budget(attachments, downloaded, from + 1, budget);
    } else if attachments[from].size > budget {
    } else if from < downloaded.len() && downloaded[from] {
        let rest_budget = (budget - attachments[from].size) as u64;
        let rest = staged_from(attachments, downloaded, from + 1, rest_budget);
        lemma_staged_within_budget(attachments, downloaded, from + 1, rest_budget);
        let staged = seq![from] + rest;
        assert(staged.drop_first() =~= rest);
        assert forall|k: int, l: int| 0 <= k < l < staged.len() implies staged[k] < staged[l] by {
            assert(staged[l] == rest[l - 1]);
            if k > 0 {
                assert(staged[k] == rest[k - 1]);
            }
        }
        assert forall|k: int| 0 <= k < staged.len() implies from <= #[trigger] staged[k] < attachments.len()
            && attachments[staged[k]].spec_is_image() && downloaded[staged[k]] by {
            if k > 0 {
                assert(staged[k] == rest[k - 1]);
            }
        }
    } else {
        lemma_staged_within_budget(attachments, downloaded, from + 1, budget);
    }
}

/// What the stager asks for next.
#[derive(PartialEq, Eq, Clone, Debug)]
pub enum StagingStep {
    /// Download attachment `index` to `path`, then `record` how that went.
    Download { index: usize, path: String },
    /// Staging is over: take what `into_staged` gives.
    Finished,
}

/// The progress of staging the images of one message.
pub struct Stager {
    message_id: u64,
    budget_left: u64,
    next: usize,
    stopped: bool,
    staged: Vec<StagedAttachment>,
    indices: Vec<usize>,
}

impl Stager {
    /// The message whose images are staged.
    pub closed spec fn spec_message_id(&self) -> u64 {
        self.message_id
    }

    /// The bytes that may still be staged.
    pub closed spec fn spec_budget_left(&self) -> u64 {
        self.budget_left
    }

    /// The attachment that is looked at next.
    pub closed spec fn spec_next(&self) -> int {
        self.next as int
    }

    /// Whether staging is over.
    pub closed spec fn spec_stopped(&self) -> bool {
        self.stopped
    }

    /// Which attachments are staged so far, by index.
    pub closed spec fn spec_indices(&self) -> Seq<int> {
        self.indices@.map_values(|i: usize| i as int)
    }

    /// What is staged so far.
    pub closed spec fn spec_staged(&self) -> Seq<StagedAttachment> {
        self.staged@
    }

    /// What will be staged in the end if `downloaded[i]` says whether the
    /// download of attachment `i` works.
    pub open spec fn outcome(&self, attachments: Seq<Attachment>, downloaded: Seq<bool>) -> Seq<int> {
        if self.spec_stopped() {
            self.spec_indices()
        } else {
            self.spec_indices() + staged_from(attachments, downloaded, self.spec_next(), self.spec_budget_left())
        }
    }

    /// Each staged file carries the name of its attachment and lies under that
    /// name in the scratch directory of the message.
    pub open spec fn files_match(&self, attachments: Seq<Attachment>) -> bool {
        &&& self.spec_staged().len() == self.spec_indices().len()
        &&& forall|k: int|
            0 <= k < self.spec_indices().len() ==> {
                let i = #[trigger] self.spec_indices()[k];
                &&& 0 <= i < attachments.len()
                &&& self.spec_staged()[k].original_name@ == attachments[i].filename@
                &&& self.spec_staged()[k].local_path@ == scratch_path_text(
                    scratch_dir_text(self.spec_message_id()),
                    attachments[i].filename@,
                )
            }
    }

    /// A stager for the images of a message, with the whole upload budget and
    /// nothing staged.
    pub fn new(message_id: u64) -> (stager: Self)
        ensures
            stager.spec_message_id() == message_id,
            stager.spec_budget_left() == UPLOAD_BUDGET,
            stager.spec_next() == 0,
            !stager.spec_stopped(),
            stager.spec_indices() == Seq::<int>::empty(),
            stager.spec_staged() == Seq::<StagedAttachment>::empty(),
            forall|attachments: Seq<Attachment>| #[trigger] stager.files_match(attachments),
    {
        Self::with_budget(message_id, UPLOAD_BUDGET)
    }

    /// A stager for the images of a message, with `budget` bytes to spend and
    /// nothing staged.
    pub fn with_budget(message_id: u64, budget: u64) -> (stager: Self)
        ensures
            stager.spec_message_id() == message_id,
            stager.spec_budget_left() == budget,
            stager.spec_next() == 0,
            !stager.spec_stopped(),
            stager.spec_indices() == Seq::<int>::empty(),
            stager.spec_staged() == Seq::<StagedAttachment>::empty(),
            forall|attachments: Seq<Attachment>| #[trigger] stager.files_match(attachments),
    {
        let stager = Stager {
            message_id,
            budget_left: budget,
            next: 0,
            stopped: false,
            staged: Vec::new(),
            indices: Vec::new(),
        };
        assert(stager.spec_indices() =~= Seq::<int>::empty());
        stager
    }

    /// Where a file of the message is put in its scratch directory.
    fn path_of(&self, attachment: &Attachment) -> (path: String)
        ensures
            path@ == scratch_path_text(scratch_dir_text(self.message_id), attachment.filename@),
    {
        let dir = scratch_dir(self.message_id);
        scratch_path(dir.as_str(), attachment.filename.as_str())
    }

    /// Looks for the next image. Where it fits the budget, its download is
    /// asked for; where it does not, or no image is left, staging is over.
    /// Nothing is staged or spent by this.
    pub fn advance(&mut self, attachments: &Vec<Attachment>) -> (step: StagingStep)
        requires
            old(self).spec_next() <= attachments@.len(),
        ensures
            final(self).spec_message_id() == old(self).spec_message_id(),
            final(self).spec_indices() == old(self).spec_indices(),
            final(self).spec_staged() == old(self).spec_staged(),
            final(self).spec_budget_left() == old(self).spec_budget_left(),
            final(self).spec_next() <= attachments@.len(),
            ({
                let i = next_image(attachments@, old(self).spec_next());
                if old(self).spec_stopped() || i >= attachments@.len() || attachments@[i].size > old(
                    self,
                ).spec_budget_left() {
                    step is Finished && final(self).spec_stopped()
                } else {
                    &&& !final(self).spec_stopped()
                    &&& final(self).spec_next() == i
                    &&& step matches StagingStep::Download { index, path }
                    &&& index == i
                    &&& path@ == scratch_path_text(
                        scratch_dir_text(old(self).spec_message_id()),
                        attachments@[i].filename@,
                    )
                    &&& attachments@[i].spec_is_image()
                }
            }),
            forall|downloaded: Seq<bool>| #[trigger]
                final(self).outcome(attachments@, downloaded) == old(self).outcome(attachments@, downloaded),
    {
        if self.stopped {
            return StagingStep::Finished;
        }
        let ghost start = self.next as int;
        while self.next < attachments.len() && !attachments[self.next].is_image()
            invariant
                start <= self.next <= attachments@.len(),
                !self.stopped,
                self.message_id == old(self).message_id,
                self.indices == old(self).indices,
                self.staged == old(self).staged,
                self.budget_left == old(self).budget_left,
                next_image(attachments@, start) == next_image(attachments@, self.next as int),
                forall|downloaded: Seq<bool>|
                    #![trigger staged_from(attachments@, downloaded, start, self.budget_left)]
                    staged_from(attachments@, downloaded, start, self.budget_left) == staged_from(
                        attachments@,
                        downloaded,
                        self.next as int,
                        self.budget_left,
                    ),
            decreases attachments@.len() - self.next,
        {
            self.next += 1;
        }
        if self.next >= attachments.len() || attachments[self.next].size > self.budget_left {
            self.stopped = true;
            return StagingStep::Finished;
        }
        let path = self.path_of(&attachments[self.next]);
        StagingStep::Download { index: self.next, path }
    }

    /// Takes note of how the download that `advance` asked for went. A file
    /// that arrived is staged and paid for out of the budget; one that did not
    /// is passed over, which is reported as an attachment error and stops
    /// nothing.
    pub fn record(&mut self, attachments: &Vec<Attachment>, arrived: bool) -> (outcome: Result<(), CowboardError>)
        requires
            !old(self).spec_stopped(),
            old(self).spec_next() < attachments@.len(),
            attachments@[old(self).spec_next()].spec_is_image(),
            attachments@[old(self).spec_next()].size <= old(self).spec_budget_left(),
        ensures
            outcome == (if arrived {
                Ok::<(), CowboardError>(())
            } else {
                Err::<(), CowboardError>(CowboardError::Attachment)
            }),
            !final(self).spec_stopped(),
            final(self).spec_message_id() == old(self).spec_message_id(),
            final(self).spec_next() == old(self).spec_next() + 1,
            old(self).files_match(attachments@) ==> final(self).files_match(attachments@),
            arrived ==> {
                &&& final(self).spec_indices() == old(self).spec_indices().push(old(self).spec_next())
                &&& final(self).spec_staged().len() == old(self).spec_staged().len() + 1
                &&& final(self).spec_staged().drop_last() == old(self).spec_staged()
                &&& final(self).spec_staged().last().original_name@ == attachments@[old(
                    self,
                ).spec_next()].filename@
                &&& final(self).spec_staged().last().local_path@ == scratch_path_text(
                    scratch_dir_text(old(self).spec_message_id()),
                    attachments@[old(self).spec_next()].filename@,
                )
                &&& final(self).spec_budget_left() == old(self).spec_budget_left() - attachments@[old(
                    self,
                ).spec_next()].size
            },
            !arrived ==> {
                &&& final(self).spec_indices() == old(self).spec_indices()
                &&& final(self).spec_staged() == old(self).spec_staged()
                &&& final(self).spec_budget_left() == old(self).spec_budget_left()
            },
            forall|downloaded: Seq<bool>|
                old(self).spec_next() < downloaded.len() && downloaded[old(self).spec_next()] == arrived
                    ==> #[trigger] final(self).outcome(attachments@, downloaded) == old(self).outcome(
                    attachments@,
                    downloaded,
                ),
            forall|downloaded: Seq<bool>|
                old(self).spec_next() >= downloaded.len() && !arrived ==> #[trigger] final(self).outcome(
                    attachments@,
                    downloaded,
                ) == old(self).outcome(attachments@, downloaded),
    {
        let index = self.next;
        let total = attachments.len();
        assert(index < total);
        if arrived {
            let ghost before = self.indices@;
            let path = self.path_of(&attachments[index]);
            self.staged.push(StagedAttachment { original_name: attachments[index].filename.clone(), local_path: path });
            self.indices.push(index);
            self.budget_left = self.budget_left - attachments[index].size;
            proof {
                assert(self.spec_indices() =~= old(self).spec_indices().push(index as int));
                assert(self.staged@.drop_last() =~= old(self).staged@);
                assert forall|downloaded: Seq<bool>|
                    index < downloaded.len() && downloaded[index as int] implies (old(self).spec_indices().push(
                    index as int,
                ) + staged_from(attachments@, downloaded, index + 1, self.budget_left)) == old(
                    self,
                ).spec_indices() + staged_from(attachments@, downloaded, index as int, old(self).budget_left) by {
                    assert(old(self).spec_indices().push(index as int) + staged_from(
                        attachments@,
                        downloaded,
                        index + 1,
                        self.budget_left,
                    ) =~= old(self).spec_indices() + (seq![index as int] + staged_from(
                        attachments@,
                        downloaded,
                        index + 1,
                        self.budget_left,
                    )));
                }
            }
        }
        self.next = index + 1;
        if arrived {
            Ok(())
        } else {
            Err(CowboardError::Attachment)
        }
    }

    /// Ends staging where nothing can be staged, as when the scratch
    /// directory could not be made. What is staged so far stays.
    pub fn halt(&mut self)
        ensures
            final(self).spec_stopped(),
            final(self).spec_message_id() == old(self).spec_message_id(),
            final(self).spec_next() == old(self).spec_next(),
            final(self).spec_budget_left() == old(self).spec_budget_left(),
            final(self).spec_indices() == old(self).spec_indices(),
            final(self).spec_staged() == old(self).spec_staged(),
    {
        self.stopped = true;
    }

    /// Whether staging is over.
    #[verifier::when_used_as_spec(spec_stopped)]
    pub fn is_finished(&self) -> (yes: bool)
        ensures
            yes == self.spec_stopped(),
    {
        self.stopped
    }

    /// The bytes that may still be staged.
    #[verifier::when_used_as_spec(spec_budget_left)]
    pub fn budget_left(&self) -> (bytes: u64)
        ensures
            bytes == self.spec_budget_left(),
    {
        self.budget_left
    }

    /// Which attachments are staged, by index and in order.
    pub fn staged_indices(&self) -> (indices: &Vec<usize>)
        ensures
            indices@.map_values(|i: usize| i as int) == self.spec_indices(),
    {
        &self.indices
    }

    /// What is staged so far.
    pub fn staged(&self) -> (staged: &Vec<StagedAttachment>)
        ensures
            staged@ == self.spec_staged(),
    {
        &self.staged
    }

    /// Hands out what was staged.
    pub fn into_staged(self) -> (staged: Vec<StagedAttachment>)
        ensures
            staged@ == self.spec_staged(),
    {
        self.staged
    }
}

} // verus!
