//! The engine instance: ownership, exclusivity, callbacks and the
//! error-polling protocol.
//!
//! The engine is reached through a function-pointer table, keeps one
//! global error slot that each call overwrites, accepts exactly one
//! registered notification handler, and crashes the process if two
//! instances are ever live at once. This module verifies the protocol
//! that makes such an engine safe to use:
//!
//! - construction claims the process-wide [`InstanceLock`] and every
//!   failure path releases it again;
//! - strong owners are counted, and the engine's destroy hook runs
//!   exactly once, when the last one is dropped;
//! - a notification handler's state is released exactly once, and only
//!   after the engine can no longer invoke it;
//! - each call is followed by one poll of the error slot, where the
//!   empty message means success;
//! - a password prompt delivered mid-load is answered through a weak
//!   handle, and a stale weak handle fails cleanly instead of touching a
//!   destroyed engine.
//!
//! Everything the engine itself decides (what a call left in the error
//! slot, whether initialization produced a context, how a document
//! behaves) enters as a plain value, and the decisions taken on those
//! observations are verified for every value.

use crate::document::Document;
use crate::document::DocumentProfile;
use crate::document::DocumentRaw;
use crate::error::OfficeError;
use crate::features::DOCUMENT_PASSWORD;
use crate::features::OfficeOptionalFeatures;
use crate::lock::InstanceLock;
use crate::text::contains_nul;
use crate::text::find_nul;
use crate::urls::DocUrl;
use crate::version::ProductVersion;
use vstd::prelude::*;

verus! {

/// No value occurs twice in the sequence.
pub open spec fn no_dups(s: Seq<u64>) -> bool {
    forall|i: int, j: int| 0 <= i < j < s.len() ==> s[i] != s[j]
}

/// Which of the never-version-gated table slots the installed build
/// actually provides; the native table may leave any of them null.
#[derive(Debug, Clone, Copy, PartialEq, Eq, Structural)]
pub struct SlotTable {
    pub set_option: bool,
    pub dump_state: bool,
    pub sign_document: bool,
    pub send_dialog_event: bool,
    pub save_as: bool,
    pub get_document_type: bool,
}

/// What one engine initialization attempt reported.
pub struct InitReport {
    /// The engine entry hook returned a context rather than null.
    pub ok: bool,
    /// What the error slot held right after initialization; the empty
    /// string means no error.
    pub init_error: String,
    /// The installed engine build's version, which decides the
    /// version-gated capabilities.
    pub version: ProductVersion,
    /// The never-version-gated slots the installed table provides.
    pub slots: SlotTable,
}

/// What one metadata-returning engine call produced: the raw bytes the
/// engine handed back and the error-slot content polled right after the
/// call.
pub struct MetadataFetch {
    /// The bytes the engine returned.
    pub bytes: Vec<u8>,
    /// The error-slot content after the call; empty means no error.
    pub poll: String,
}

/// The outcome a metadata retrieval owes for a capability gated at
/// `required`: the named slot must exist, the poll must be clean, and
/// the bytes must be valid UTF-8; then the decoded text is returned.
pub open spec fn metadata_outcome(
    office: Office,
    required: ProductVersion,
    slot_name: Seq<char>,
    fetch: MetadataFetch,
    r: Result<String, OfficeError>,
) -> bool {
    match r {
        Ok(s) => office.version.spec_ge(required) && fetch.poll@.len() == 0
            && vstd::utf8::valid_utf8(fetch.bytes@) && s@ == vstd::utf8::decode_utf8(fetch.bytes@),
        Err(e) => match e {
            OfficeError::MissingFunction(n) => n@ == slot_name && !office.version.spec_ge(required),
            OfficeError::OfficeError(m) => office.version.spec_ge(required) && fetch.poll@.len()
                > 0 && m@ == fetch.poll@,
            OfficeError::InvalidUtf8String => office.version.spec_ge(required) && fetch.poll@.len()
                == 0 && !vstd::utf8::valid_utf8(fetch.bytes@),
            _ => false,
        },
    }
}

/// Relies on `String::from_utf8`: it succeeds exactly on valid UTF-8
/// input and yields the decoding of those bytes.
#[verifier::external_body]
fn utf8_text(bytes: Vec<u8>) -> (r: Option<String>)
    ensures
        r is Some <==> vstd::utf8::valid_utf8(bytes@),
        r matches Some(s) ==> s@ == vstd::utf8::decode_utf8(bytes@),
{
    match String::from_utf8(bytes) {
        Ok(s) => Some(s),
        Err(_) => None,
    }
}

/// The password-prompt states of one load.
#[derive(Debug, Clone, Copy, PartialEq, Eq, Structural)]
pub enum PromptState {
    /// No prompt is pending.
    Idle,
    /// The engine has asked for the document's password and waits,
    /// mid-load, for the handler's answer.
    AwaitingPassword,
    /// The handler supplied the correct password; the engine proceeds
    /// with the load.
    PasswordSupplied,
    /// The handler declined or gave no usable answer; the engine
    /// abandons the load.
    Aborted,
}

/// One answer of the notification handler to one password prompt.
pub enum PromptAnswer {
    /// The handler supplied this password.
    Password(String),
    /// The handler declined: it has no password to offer.
    NoPassword,
    /// The handler raised a failure internally; the dispatch boundary
    /// contains it, so the engine sees no answer for this prompt.
    HandlerFailed,
}

/// Where one answer takes the prompt machine from `AwaitingPassword`: a
/// wrong password re-enters the waiting state (the engine prompts
/// again), the correct one lets the load proceed, anything else
/// abandons it.
pub open spec fn spec_prompt_step(answer: PromptAnswer, required: Seq<char>) -> PromptState {
    match answer {
        PromptAnswer::Password(p) => if p@ == required {
            PromptState::PasswordSupplied
        } else {
            PromptState::AwaitingPassword
        },
        PromptAnswer::NoPassword => PromptState::Aborted,
        PromptAnswer::HandlerFailed => PromptState::Aborted,
    }
}

/// Takes the prompt machine one step from `AwaitingPassword`.
pub fn prompt_step(answer: &PromptAnswer, required: &String) -> (r: PromptState)
    ensures
        r == spec_prompt_step(*answer, required@),
{
    match answer {
        PromptAnswer::Password(p) => if crate::text::str_eq(p.as_str(), required.as_str()) {
            PromptState::PasswordSupplied
        } else {
            PromptState::AwaitingPassword
        },
        PromptAnswer::NoPassword => PromptState::Aborted,
        PromptAnswer::HandlerFailed => PromptState::Aborted,
    }
}

/// An answer on which the engine stops re-prompting.
pub open spec fn is_terminator(answer: PromptAnswer, required: Seq<char>) -> bool {
    spec_prompt_step(answer, required) != PromptState::AwaitingPassword
}

/// Tests whether the prompt exchange ends on this answer.
fn answer_ends_prompting(answer: &PromptAnswer, required: &String) -> (r: bool)
    ensures
        r == is_terminator(*answer, required@),
{
    match prompt_step(answer, required) {
        PromptState::AwaitingPassword => false,
        _ => true,
    }
}

/// The index of the first answer that ends the prompting, or the number
/// of answers when every one is a wrong password.
pub open spec fn first_terminator(answers: Seq<PromptAnswer>, required: Seq<char>) -> int
    decreases answers.len(),
{
    if answers.len() == 0 {
        0
    } else if is_terminator(answers[0], required) {
        0
    } else {
        1 + first_terminator(answers.subrange(1, answers.len() as int), required)
    }
}

/// Any index with the characterization of `first_terminator` is
/// `first_terminator`.
pub proof fn lemma_first_terminator_unique(
    answers: Seq<PromptAnswer>,
    required: Seq<char>,
    k: int,
)
    requires
        0 <= k <= answers.len(),
        k < answers.len() ==> is_terminator(answers[k], required),
        forall|j: int| 0 <= j < k ==> !is_terminator(answers[j], required),
    ensures
        first_terminator(answers, required) == k,
    decreases answers.len(),
{
    if answers.len() == 0 {
    } else if is_terminator(answers[0], required) {
        assert(k == 0);
    } else {
        let rest = answers.subrange(1, answers.len() as int);
        assert(k >= 1);
        assert forall|j: int| 0 <= j < k - 1 implies !is_terminator(rest[j], required) by {
            assert(rest[j] == answers[j + 1]);
        }
        assert(k - 1 < rest.len() ==> is_terminator(rest[k - 1], required));
        lemma_first_terminator_unique(rest, required, k - 1);
    }
}

/// How many prompts the engine delivers for a protected load with these
/// answers: one per wrong password plus the ending one; when the
/// handler never ends the exchange, one final prompt goes unanswered
/// and the load aborts.
pub open spec fn prompts_for(answers: Seq<PromptAnswer>, required: Seq<char>) -> int {
    if first_terminator(answers, required) < answers.len() {
        first_terminator(answers, required) + 1
    } else {
        answers.len() as int + 1
    }
}

/// Whether the prompt exchange ends with the correct password, letting
/// the load proceed.
pub open spec fn prompt_run_succeeds(answers: Seq<PromptAnswer>, required: Seq<char>) -> bool {
    let k = first_terminator(answers, required);
    k < answers.len() && answers[k] is Password
}

/// A protected document prompts only while a handler is registered and
/// the password feature was enabled beforehand.
pub open spec fn load_prompting(office: Office) -> bool {
    office.callback is Some && office.features.spec_contains(DOCUMENT_PASSWORD)
}

/// The document a successful load hands back: a live child resource
/// carrying the engine's classification and accepted formats, with the
/// document-table slots the installed build provides.
pub open spec fn loaded_document(office: Office, profile: DocumentProfile, d: Document) -> bool {
    &&& d.raw.alive
    &&& d.raw.has_save_as == office.slots.save_as
    &&& d.raw.has_document_type == office.slots.get_document_type
    &&& d.raw.doc_type_code == profile.doc_type_code
    &&& d.raw.save_formats == profile.save_formats
}

/// A load changes nothing of the instance but the prompt counter.
pub open spec fn load_frame(pre: Office, post: Office) -> bool {
    &&& Office::same_identity(pre, post)
    &&& post.strong == pre.strong
    &&& post.callback == pre.callback
    &&& post.next_handler == pre.next_handler
    &&& post.freed == pre.freed
}

/// What one load owes once its locks have passed. An unprotected
/// document loads exactly when the engine can load it. A protected one
/// fails without a single prompt when prompting is off; otherwise the
/// prompt exchange runs against the handler's answers, every delivered
/// prompt is counted, and the load succeeds exactly when the exchange
/// ends with the correct password and the engine can load the document.
pub open spec fn load_outcome(
    pre: Office,
    post: Office,
    profile: DocumentProfile,
    answers: Seq<PromptAnswer>,
    r: Result<Document, OfficeError>,
) -> bool {
    match profile.password {
        None => post.prompts_issued == pre.prompts_issued && (match r {
            Ok(d) => profile.loadable && loaded_document(pre, profile, d),
            Err(e) => e matches OfficeError::OfficeError(m) && !profile.loadable && m@
                == profile.fail_message@,
        }),
        Some(required) => if !load_prompting(pre) {
            post.prompts_issued == pre.prompts_issued && (
            r matches Err(OfficeError::OfficeError(m)) && m@ == profile.fail_message@)
        } else {
            post.prompts_issued == pre.prompts_issued + prompts_for(answers, required@) && (
            match r {
                Ok(d) => prompt_run_succeeds(answers, required@) && profile.loadable
                    && loaded_document(pre, profile, d),
                Err(e) => e matches OfficeError::OfficeError(m) && m@ == profile.fail_message@
                    && !(prompt_run_succeeds(answers, required@) && profile.loadable),
            })
        },
    }
}

/// A live engine instance: the shared engine resource together with the
/// count of its strong owners.
///
/// The real instance is one heap allocation shared by every cloned
/// strong handle on a single thread; this value models that allocation,
/// so cloning and dropping strong handles are transitions on it.
pub struct Office {
    /// The installed engine build's version.
    pub version: ProductVersion,
    /// The never-version-gated slots the installed table provides.
    pub slots: SlotTable,
    /// How many strong owners are alive. The engine resource is
    /// destroyed exactly when this reaches zero.
    pub strong: u64,
    /// The lock epoch under which this instance claimed the lock;
    /// weak handles carry it to detect staleness.
    pub instance: u64,
    /// The optional-feature bits most recently handed to the engine.
    pub features: OfficeOptionalFeatures,
    /// The identity of the currently installed notification-handler
    /// state, if a handler is registered.
    pub callback: Option<u64>,
    /// Identities the instance has allocated for handler state so far;
    /// the next registration takes this value.
    pub next_handler: u64,
    /// Identities of handler state already released. Tracked to state
    /// that each is released exactly once.
    pub freed: Ghost<Seq<u64>>,
    /// How many password prompts the engine has delivered to the
    /// registered handler over this instance's life.
    pub prompts_issued: u64,
}

/// A weak handle handed to notification-handler code: it can call back
/// into the engine only after upgrading, and upgrading fails cleanly
/// once the last strong owner is gone.
#[derive(Debug, Clone, Copy, PartialEq, Eq, Structural)]
pub struct CallbackOffice {
    /// The lock epoch of the instance this handle refers to.
    pub instance: u64,
}

impl Office {
    /// The bookkeeping invariant: handler identities are allocated in
    /// order, the installed handler is never among the released ones,
    /// nothing is released twice, and a destroyed instance keeps no
    /// handler installed.
    pub open spec fn wf(self) -> bool {
        &&& (self.callback matches Some(h) ==> h < self.next_handler && !self.freed@.contains(h))
        &&& (forall|i: int| 0 <= i < self.freed@.len() ==> self.freed@[i] < self.next_handler)
        &&& no_dups(self.freed@)
        &&& (self.strong == 0 ==> self.callback is None)
    }

    /// Everything but the owner count, handler bookkeeping and prompt
    /// counter agrees between two states.
    pub open spec fn same_identity(pre: Office, post: Office) -> bool {
        &&& post.version == pre.version
        &&& post.slots == pre.slots
        &&& post.instance == pre.instance
        &&& post.features == pre.features
    }

    /// One successful handler registration: the fresh identity is
    /// installed, and the displaced one (if any) is released.
    pub open spec fn register_ok(pre: Office, post: Office) -> bool {
        &&& Office::same_identity(pre, post)
        &&& post.strong == pre.strong
        &&& post.prompts_issued == pre.prompts_issued
        &&& post.next_handler == pre.next_handler + 1
        &&& post.callback == Some(pre.next_handler)
        &&& post.freed@ == (match pre.callback {
            Some(h) => pre.freed@.push(h),
            None => pre.freed@,
        })
    }

    /// Creates the process's engine instance.
    ///
    /// The lock is claimed first, so a racing second construction fails
    /// with [`OfficeError::InstanceLock`]; every later failure of the
    /// attempt releases the lock again before reporting, so a failed
    /// construction never blocks future ones. The install path must be
    /// an absolute, null-free string.
    pub fn new(lock: &mut InstanceLock, install_path: &str, init: InitReport) -> (r: Result<
        Office,
        OfficeError,
    >)
        requires
            old(lock).epoch < u64::MAX,
        ensures
            match r {
                Ok(office) => {
                    &&& !old(lock).claimed
                    &&& final(lock).claimed
                    &&& final(lock).epoch == old(lock).epoch + 1
                    &&& install_path@.len() > 0
                    &&& install_path@[0] == '/'
                    &&& !contains_nul(install_path@)
                    &&& init.ok
                    &&& init.init_error@.len() == 0
                    &&& office.wf()
                    &&& office.version == init.version
                    &&& office.slots == init.slots
                    &&& office.strong == 1
                    &&& office.instance == final(lock).epoch
                    &&& office.features.bits == 0
                    &&& office.callback is None
                    &&& office.next_handler == 0
                    &&& office.freed@ == Seq::<u64>::empty()
                    &&& office.prompts_issued == 0
                },
                Err(e) => match e {
                    OfficeError::InstanceLock => old(lock).claimed && final(lock).claimed
                        && final(lock).epoch == old(lock).epoch,
                    OfficeError::InvalidPath => !old(lock).claimed && !final(lock).claimed && (
                    install_path@.len() == 0 || install_path@[0] != '/'),
                    OfficeError::InvalidString => !old(lock).claimed && !final(lock).claimed
                        && install_path@.len() > 0 && install_path@[0] == '/' && contains_nul(
                        install_path@,
                    ),
                    OfficeError::UnknownInit => !old(lock).claimed && !final(lock).claimed
                        && install_path@.len() > 0 && install_path@[0] == '/' && !contains_nul(
                        install_path@,
                    ) && !init.ok,
                    OfficeError::OfficeError(m) => !old(lock).claimed && !final(lock).claimed
                        && install_path@.len() > 0 && install_path@[0] == '/' && !contains_nul(
                        install_path@,
                    ) && init.ok && init.init_error@.len() > 0 && m@ == init.init_error@,
                    _ => false,
                },
            },
    {
        let won = lock.try_claim();
        if !won {
            return Err(OfficeError::InstanceLock);
        }
        if install_path.is_empty() || install_path.get_char(0) != '/' {
            lock.release();
            return Err(OfficeError::InvalidPath);
        }
        if find_nul(install_path) {
            lock.release();
            return Err(OfficeError::InvalidString);
        }
        if !init.ok {
            lock.release();
            return Err(OfficeError::UnknownInit);
        }
        if !init.init_error.as_str().is_empty() {
            lock.release();
            return Err(OfficeError::OfficeError(init.init_error));
        }
        Ok(
            Office {
                version: init.version,
                slots: init.slots,
                strong: 1,
                instance: lock.epoch,
                features: OfficeOptionalFeatures::empty(),
                callback: None,
                next_handler: 0,
                freed: Ghost(Seq::empty()),
                prompts_issued: 0,
            },
        )
    }

    /// One more strong owner of the same instance; the lock is not
    /// claimed again.
    pub fn clone_handle(&mut self)
        requires
            old(self).wf(),
            old(self).strong >= 1,
            old(self).strong < u64::MAX,
        ensures
            final(self).wf(),
            Office::same_identity(*old(self), *final(self)),
            final(self).strong == old(self).strong + 1,
            final(self).callback == old(self).callback,
            final(self).next_handler == old(self).next_handler,
            final(self).freed == old(self).freed,
            final(self).prompts_issued == old(self).prompts_issued,
    {
        self.strong = self.strong + 1;
    }

    /// One strong owner goes away. When the last one does, the engine's
    /// destroy hook runs (exactly once), the installed handler state is
    /// released, and the lock is released so a new instance may be
    /// created at once.
    pub fn drop_handle(&mut self, lock: &mut InstanceLock)
        requires
            old(self).wf(),
            old(self).strong >= 1,
            old(lock).claimed,
            old(lock).epoch == old(self).instance,
        ensures
            final(self).wf(),
            Office::same_identity(*old(self), *final(self)),
            final(self).strong == old(self).strong - 1,
            final(self).next_handler == old(self).next_handler,
            final(self).prompts_issued == old(self).prompts_issued,
            old(self).strong > 1 ==> {
                &&& final(self).callback == old(self).callback
                &&& final(self).freed == old(self).freed
                &&& final(lock).claimed == old(lock).claimed
                &&& final(lock).epoch == old(lock).epoch
            },
            old(self).strong == 1 ==> {
                &&& final(self).callback is None
                &&& final(self).freed@ == (match old(self).callback {
                    Some(h) => old(self).freed@.push(h),
                    None => old(self).freed@,
                })
                &&& !final(lock).claimed
                &&& final(lock).epoch == old(lock).epoch
            },
    {
        self.strong = self.strong - 1;
        if self.strong == 0 {
            match self.callback {
                Some(h) => {
                    self.freed = Ghost(self.freed@.push(h));
                    self.callback = None;
                },
                None => {},
            }
            lock.release();
        }
    }

    /// Interprets one poll of the engine's single error slot: the empty
    /// message means no error, anything else is the failure of the call
    /// just made. The slot is overwritten by each call, so a poll is
    /// meaningful only straight after the call it belongs to.
    pub fn get_error(&self, slot: &str) -> (r: Option<String>)
        ensures
            match r {
                Some(m) => slot@.len() > 0 && m@ == slot@,
                None => slot@.len() == 0,
            },
    {
        if slot.is_empty() {
            None
        } else {
            Some(slot.to_owned())
        }
    }

    /// Installs a notification handler, displacing any previous one.
    ///
    /// Fresh handler state is allocated before the installation call and
    /// handed to the engine with the dispatch shim; the displaced
    /// handler's state is released only after the installation reports no
    /// error, because until then the engine may still invoke it. State
    /// allocated for a failed installation is never referenced again and
    /// never reused. Returns the weak handle that the handler will
    /// receive with each notification.
    pub fn register_callback(&mut self, poll: &str) -> (r: Result<CallbackOffice, OfficeError>)
        requires
            old(self).wf(),
            old(self).strong >= 1,
            old(self).next_handler < u64::MAX,
        ensures
            final(self).wf(),
            match r {
                Ok(cb) => old(self).version.spec_ge(ProductVersion { major: 6, minor: 0 })
                    && poll@.len() == 0 && Office::register_ok(*old(self), *final(self))
                    && cb.instance == old(self).instance,
                Err(e) => {
                    &&& Office::same_identity(*old(self), *final(self))
                    &&& final(self).strong == old(self).strong
                    &&& final(self).callback == old(self).callback
                    &&& final(self).freed == old(self).freed
                    &&& final(self).prompts_issued == old(self).prompts_issued
                    &&& match e {
                        OfficeError::MissingFunction(n) => n@ == "registerCallback"@ && !old(self).version.spec_ge(ProductVersion { major: 6, minor: 0 })
                            && final(self).next_handler == old(self).next_handler + 1,
                        OfficeError::OfficeError(m) => old(self).version.spec_ge(
                            ProductVersion { major: 6, minor: 0 },
                        ) && poll@.len() > 0 && m@ == poll@ && final(self).next_handler == old(self).next_handler + 1,
                        _ => false,
                    }
                },
            },
    {
        // the handler state is boxed and leaked before the table lookup
        let fresh = self.next_handler;
        self.next_handler = self.next_handler + 1;
        if !self.version.is_register_callback_available() {
            return Err(OfficeError::MissingFunction("registerCallback"));
        }
        match self.get_error(poll) {
            Some(m) => Err(OfficeError::OfficeError(m)),
            None => {
                match self.callback {
                    Some(h) => {
                        self.freed = Ghost(self.freed@.push(h));
                    },
                    None => {},
                }
                self.callback = Some(fresh);
                Ok(CallbackOffice { instance: self.instance })
            },
        }
    }

    /// Uninstalls the notification handler: the engine's callback slot
    /// is cleared first, and the handler state is released only after
    /// the clearing call reports no error.
    pub fn clear_callback(&mut self, poll: &str) -> (r: Result<(), OfficeError>)
        requires
            old(self).wf(),
            old(self).strong >= 1,
        ensures
            final(self).wf(),
            Office::same_identity(*old(self), *final(self)),
            final(self).strong == old(self).strong,
            final(self).next_handler == old(self).next_handler,
            final(self).prompts_issued == old(self).prompts_issued,
            match r {
                Ok(()) => old(self).version.spec_ge(ProductVersion { major: 6, minor: 0 })
                    && poll@.len() == 0 && final(self).callback is None && final(self).freed@ == (
                match old(self).callback {
                    Some(h) => old(self).freed@.push(h),
                    None => old(self).freed@,
                }),
                Err(e) => {
                    &&& final(self).callback == old(self).callback
                    &&& final(self).freed == old(self).freed
                    &&& match e {
                        OfficeError::MissingFunction(n) => n@ == "registerCallback"@ && !old(self).version.spec_ge(ProductVersion { major: 6, minor: 0 }),
                        OfficeError::OfficeError(m) => old(self).version.spec_ge(
                            ProductVersion { major: 6, minor: 0 },
                        ) && poll@.len() > 0 && m@ == poll@,
                        _ => false,
                    }
                },
            },
    {
        if !self.version.is_register_callback_available() {
            return Err(OfficeError::MissingFunction("registerCallback"));
        }
        match self.get_error(poll) {
            Some(m) => Err(OfficeError::OfficeError(m)),
            None => {
                match self.callback {
                    Some(h) => {
                        self.freed = Ghost(self.freed@.push(h));
                    },
                    None => {},
                }
                self.callback = None;
                Ok(())
            },
        }
    }

    /// Sets one engine option by name; both strings cross the C
    /// boundary and must be free of embedded null bytes.
    pub fn set_option(&self, option: &str, value: &str, poll: &str) -> (r: Result<
        (),
        OfficeError,
    >)
        requires
            self.wf(),
            self.strong >= 1,
        ensures
            match r {
                Ok(()) => !contains_nul(option@) && !contains_nul(value@) && self.slots.set_option
                    && poll@.len() == 0,
                Err(e) => match e {
                    OfficeError::InvalidString => contains_nul(option@) || contains_nul(value@),
                    OfficeError::MissingFunction(n) => n@ == "setOption"@ && !contains_nul(option@)
                        && !contains_nul(value@) && !self.slots.set_option,
                    OfficeError::OfficeError(m) => !contains_nul(option@) && !contains_nul(value@)
                        && self.slots.set_option && poll@.len() > 0 && m@ == poll@,
                    _ => false,
                },
            },
    {
        if find_nul(option) || find_nul(value) {
            return Err(OfficeError::InvalidString);
        }
        if !self.slots.set_option {
            return Err(OfficeError::MissingFunction("setOption"));
        }
        match self.get_error(poll) {
            Some(m) => Err(OfficeError::OfficeError(m)),
            None => Ok(()),
        }
    }

    /// Sends one dialog event to an engine window; the argument string
    /// crosses the C boundary and must be free of embedded null bytes.
    pub fn send_dialog_event(&self, window_id: u64, arguments: &str, poll: &str) -> (r: Result<
        (),
        OfficeError,
    >)
        requires
            self.wf(),
            self.strong >= 1,
        ensures
            match r {
                Ok(()) => !contains_nul(arguments@) && self.slots.send_dialog_event && poll@.len()
                    == 0,
                Err(e) => match e {
                    OfficeError::InvalidString => contains_nul(arguments@),
                    OfficeError::MissingFunction(n) => n@ == "sendDialogEvent"@ && !contains_nul(
                        arguments@,
                    ) && !self.slots.send_dialog_event,
                    OfficeError::OfficeError(m) => !contains_nul(arguments@)
                        && self.slots.send_dialog_event && poll@.len() > 0 && m@ == poll@,
                    _ => false,
                },
            },
    {
        let _ = window_id;
        if find_nul(arguments) {
            return Err(OfficeError::InvalidString);
        }
        if !self.slots.send_dialog_event {
            return Err(OfficeError::MissingFunction("sendDialogEvent"));
        }
        match self.get_error(poll) {
            Some(m) => Err(OfficeError::OfficeError(m)),
            None => Ok(()),
        }
    }

    /// Runs a document macro. This call reports success through its
    /// return value, so the error slot is polled only after a failed
    /// run.
    pub fn run_macro(&self, url: &str, succeeded: bool, poll: &str) -> (r: Result<
        bool,
        OfficeError,
    >)
        requires
            self.wf(),
            self.strong >= 1,
        ensures
            match r {
                Ok(b) => !contains_nul(url@) && self.version.spec_ge(
                    ProductVersion { major: 6, minor: 0 },
                ) && b == succeeded && (succeeded || poll@.len() == 0),
                Err(e) => match e {
                    OfficeError::InvalidString => contains_nul(url@),
                    OfficeError::MissingFunction(n) => n@ == "runMacro"@ && !contains_nul(url@)
                        && !self.version.spec_ge(ProductVersion { major: 6, minor: 0 }),
                    OfficeError::OfficeError(m) => !contains_nul(url@) && self.version.spec_ge(
                        ProductVersion { major: 6, minor: 0 },
                    ) && !succeeded && poll@.len() > 0 && m@ == poll@,
                    _ => false,
                },
            },
    {
        if find_nul(url) {
            return Err(OfficeError::InvalidString);
        }
        if !self.version.is_run_macro_available() {
            return Err(OfficeError::MissingFunction("runMacro"));
        }
        if succeeded {
            return Ok(true);
        }
        match self.get_error(poll) {
            Some(m) => Err(OfficeError::OfficeError(m)),
            None => Ok(false),
        }
    }

    /// Retrieves the engine's state dump, following the polling
    /// protocol.
    pub fn dump_state(&self, state: String, poll: &str) -> (r: Result<String, OfficeError>)
        requires
            self.wf(),
            self.strong >= 1,
        ensures
            match r {
                Ok(s) => self.slots.dump_state && poll@.len() == 0 && s@ == state@,
                Err(e) => match e {
                    OfficeError::MissingFunction(n) => n@ == "dumpState"@
                        && !self.slots.dump_state,
                    OfficeError::OfficeError(m) => self.slots.dump_state && poll@.len() > 0 && m@
                        == poll@,
                    _ => false,
                },
            },
    {
        if !self.slots.dump_state {
            return Err(OfficeError::MissingFunction("dumpState"));
        }
        match self.get_error(poll) {
            Some(m) => Err(OfficeError::OfficeError(m)),
            None => Ok(state),
        }
    }

    /// Asks the engine to trim its memory use: a negative target lets it
    /// refill its caches, a large positive one urges maximum saving.
    pub fn trim_memory(&self, target: i32, poll: &str) -> (r: Result<(), OfficeError>)
        requires
            self.wf(),
            self.strong >= 1,
        ensures
            match r {
                Ok(()) => self.version.spec_ge(ProductVersion { major: 7, minor: 6 })
                    && poll@.len() == 0,
                Err(e) => match e {
                    OfficeError::MissingFunction(n) => n@ == "trimMemory"@ && !self.version.spec_ge(
                        ProductVersion { major: 7, minor: 6 },
                    ),
                    OfficeError::OfficeError(m) => self.version.spec_ge(
                        ProductVersion { major: 7, minor: 6 },
                    ) && poll@.len() > 0 && m@ == poll@,
                    _ => false,
                },
            },
    {
        let _ = target;
        if !self.version.is_trim_memory_available() {
            return Err(OfficeError::MissingFunction("trimMemory"));
        }
        match self.get_error(poll) {
            Some(m) => Err(OfficeError::OfficeError(m)),
            None => Ok(()),
        }
    }

    /// Exports the document behind the address and signs the content
    /// with the given certificate and key. The engine's boolean verdict
    /// is returned once the poll that follows the call comes back
    /// clean; a message in the error slot is the call's failure.
    pub fn sign_document(
        &self,
        url: &DocUrl,
        certificate: &[u8],
        private_key: &[u8],
        accepted: bool,
        poll: &str,
    ) -> (r: Result<bool, OfficeError>)
        requires
            self.wf(),
            self.strong >= 1,
            url.wf(),
            certificate@.len() <= i32::MAX,
            private_key@.len() <= i32::MAX,
        ensures
            match r {
                Ok(b) => self.slots.sign_document && poll@.len() == 0 && b == accepted,
                Err(e) => match e {
                    OfficeError::MissingFunction(n) => n@ == "signDocument"@
                        && !self.slots.sign_document,
                    OfficeError::OfficeError(m) => self.slots.sign_document && poll@.len() > 0
                        && m@ == poll@,
                    _ => false,
                },
            },
    {
        let _ = certificate;
        let _ = private_key;
        let _ = url;
        if !self.slots.sign_document {
            return Err(OfficeError::MissingFunction("signDocument"));
        }
        match self.get_error(poll) {
            Some(m) => Err(OfficeError::OfficeError(m)),
            None => Ok(accepted),
        }
    }

    /// Retrieves and UTF-8-validates the engine's filter-type metadata
    /// text. The text is engine-produced JSON; decoding it into
    /// structured values is the boundary collaborator's job, not the
    /// core's.
    pub fn get_filter_types(&self, fetch: MetadataFetch) -> (r: Result<String, OfficeError>)
        requires
            self.wf(),
            self.strong >= 1,
        ensures
            metadata_outcome(
                *self,
                ProductVersion { major: 6, minor: 0 },
                "getFilterTypes"@,
                fetch,
                r,
            ),
    {
        if !self.version.is_filter_types_available() {
            return Err(OfficeError::MissingFunction("getFilterTypes"));
        }
        self.validated_metadata(fetch)
    }

    /// Retrieves and UTF-8-validates the engine's version metadata text.
    /// The text is engine-produced JSON; decoding it into structured
    /// values is the boundary collaborator's job, not the core's.
    pub fn get_version_info(&self, fetch: MetadataFetch) -> (r: Result<String, OfficeError>)
        requires
            self.wf(),
            self.strong >= 1,
        ensures
            metadata_outcome(
                *self,
                ProductVersion { major: 6, minor: 0 },
                "getVersionInfo"@,
                fetch,
                r,
            ),
    {
        if !self.version.is_get_version_info_available() {
            return Err(OfficeError::MissingFunction("getVersionInfo"));
        }
        self.validated_metadata(fetch)
    }

    /// The shared tail of a metadata retrieval: poll the error slot,
    /// then UTF-8-validate the returned bytes.
    fn validated_metadata(&self, fetch: MetadataFetch) -> (r: Result<String, OfficeError>)
        ensures
            match r {
                Ok(s) => fetch.poll@.len() == 0 && vstd::utf8::valid_utf8(fetch.bytes@) && s@
                    == vstd::utf8::decode_utf8(fetch.bytes@),
                Err(e) => match e {
                    OfficeError::OfficeError(m) => fetch.poll@.len() > 0 && m@ == fetch.poll@,
                    OfficeError::InvalidUtf8String => fetch.poll@.len() == 0
                        && !vstd::utf8::valid_utf8(fetch.bytes@),
                    _ => false,
                },
            },
    {
        match self.get_error(fetch.poll.as_str()) {
            Some(m) => Err(OfficeError::OfficeError(m)),
            None => match utf8_text(fetch.bytes) {
                Some(s) => Ok(s),
                None => Err(OfficeError::InvalidUtf8String),
            },
        }
    }

    /// Loads the document behind the address.
    ///
    /// The engine's view of the document enters as `profile`; the
    /// registered handler's behaviour for this load enters as the
    /// sequence of answers it would give to successive password
    /// prompts, delivered synchronously, mid-call, through the weak
    /// handle.
    pub fn document_load(
        &mut self,
        url: &DocUrl,
        profile: DocumentProfile,
        answers: &Vec<PromptAnswer>,
    ) -> (r: Result<Document, OfficeError>)
        requires
            old(self).wf(),
            old(self).strong >= 1,
            url.wf(),
            profile.wf(),
            old(self).prompts_issued + answers@.len() + 1 <= u64::MAX,
        ensures
            final(self).wf(),
            load_frame(*old(self), *final(self)),
            !old(self).version.spec_ge(ProductVersion { major: 4, minor: 3 }) ==> (
            r matches Err(OfficeError::MissingFunction(n)) && n@ == "documentLoad"@
                && final(self).prompts_issued == old(self).prompts_issued),
            old(self).version.spec_ge(ProductVersion { major: 4, minor: 3 }) ==> load_outcome(
                *old(self),
                *final(self),
                profile,
                answers@,
                r,
            ),
    {
        let _ = url;
        if !self.version.is_document_load_available() {
            return Err(OfficeError::MissingFunction("documentLoad"));
        }
        self.load_protocol(profile, answers)
    }

    /// Loads the document behind the address with extra load options;
    /// the option string crosses the C boundary and must be free of
    /// embedded null bytes.
    pub fn document_load_with_options(
        &mut self,
        url: &DocUrl,
        options: &str,
        profile: DocumentProfile,
        answers: &Vec<PromptAnswer>,
    ) -> (r: Result<Document, OfficeError>)
        requires
            old(self).wf(),
            old(self).strong >= 1,
            url.wf(),
            profile.wf(),
            old(self).prompts_issued + answers@.len() + 1 <= u64::MAX,
        ensures
            final(self).wf(),
            load_frame(*old(self), *final(self)),
            contains_nul(options@) ==> (r matches Err(OfficeError::InvalidString) && final(self).prompts_issued == old(self).prompts_issued),
            !contains_nul(options@) && !old(self).version.spec_ge(
                ProductVersion { major: 5, minor: 0 },
            ) ==> (r matches Err(OfficeError::MissingFunction(n)) && n@
                == "documentLoadWithOptions"@ && final(self).prompts_issued == old(self).prompts_issued),
            !contains_nul(options@) && old(self).version.spec_ge(
                ProductVersion { major: 5, minor: 0 },
            ) ==> load_outcome(*old(self), *final(self), profile, answers@, r),
    {
        let _ = url;
        if find_nul(options) {
            return Err(OfficeError::InvalidString);
        }
        if !self.version.is_document_load_options_available() {
            return Err(OfficeError::MissingFunction("documentLoadWithOptions"));
        }
        self.load_protocol(profile, answers)
    }

    /// The load protocol behind both load entries, once their locks have
    /// passed: an unprotected document loads when the engine can load
    /// it; a protected one prompts only while a handler is registered
    /// and the password feature is enabled, and succeeds only when the
    /// exchange ends with the correct password.
    fn load_protocol(&mut self, profile: DocumentProfile, answers: &Vec<PromptAnswer>) -> (r:
        Result<Document, OfficeError>)
        requires
            old(self).wf(),
            old(self).strong >= 1,
            profile.wf(),
            old(self).prompts_issued + answers@.len() + 1 <= u64::MAX,
        ensures
            final(self).wf(),
            load_frame(*old(self), *final(self)),
            load_outcome(*old(self), *final(self), profile, answers@, r),
    {
        let DocumentProfile { password, loadable, fail_message, doc_type_code, save_formats } =
            profile;
        match password {
            None => {
                if loadable {
                    Ok(
                        Document {
                            raw: DocumentRaw {
                                alive: true,
                                has_save_as: self.slots.save_as,
                                has_document_type: self.slots.get_document_type,
                                doc_type_code,
                                save_formats,
                            },
                        },
                    )
                } else {
                    Err(OfficeError::OfficeError(fail_message))
                }
            },
            Some(required) => {
                let prompting = self.callback.is_some() && self.features.contains(
                    DOCUMENT_PASSWORD,
                );
                if !prompting {
                    return Err(OfficeError::OfficeError(fail_message));
                }
                // run the prompt exchange against the handler's answers
                let n = answers.len();
                let mut i: usize = 0;
                while i < n && !answer_ends_prompting(&answers[i], &required)
                    invariant
                        n == answers@.len(),
                        i <= n,
                        forall|j: int| 0 <= j < i ==> !is_terminator(answers@[j], required@),
                    decreases n - i,
                {
                    i += 1;
                }
                proof {
                    lemma_first_terminator_unique(answers@, required@, i as int);
                }
                // one prompt per consumed answer, plus the ending one
                let delivered: u64 = if i < n {
                    (i as u64) + 1
                } else {
                    (n as u64) + 1
                };
                self.prompts_issued = self.prompts_issued + delivered;
                let success = if i < n {
                    match &answers[i] {
                        PromptAnswer::Password(_) => true,
                        _ => false,
                    }
                } else {
                    false
                };
                if success && loadable {
                    Ok(
                        Document {
                            raw: DocumentRaw {
                                alive: true,
                                has_save_as: self.slots.save_as,
                                has_document_type: self.slots.get_document_type,
                                doc_type_code,
                                save_formats,
                            },
                        },
                    )
                } else {
                    Err(OfficeError::OfficeError(fail_message))
                }
            },
        }
    }

    /// Hands the engine the OR-combined optional-feature bits; prompts
    /// for protected documents happen only with the password feature
    /// enabled here beforehand.
    pub fn set_optional_features(&mut self, features: OfficeOptionalFeatures, poll: &str) -> (r:
        Result<(), OfficeError>)
        requires
            old(self).wf(),
            old(self).strong >= 1,
        ensures
            final(self).wf(),
            final(self).version == old(self).version,
            final(self).slots == old(self).slots,
            final(self).instance == old(self).instance,
            final(self).strong == old(self).strong,
            final(self).callback == old(self).callback,
            final(self).next_handler == old(self).next_handler,
            final(self).freed == old(self).freed,
            final(self).prompts_issued == old(self).prompts_issued,
            match r {
                Ok(()) => old(self).version.spec_ge(ProductVersion { major: 6, minor: 0 })
                    && poll@.len() == 0 && final(self).features == features,
                Err(e) => {
                    &&& final(self).features == old(self).features
                    &&& match e {
                        OfficeError::MissingFunction(n) => n@ == "setOptionalFeatures"@ && !old(self).version.spec_ge(ProductVersion { major: 6, minor: 0 }),
                        OfficeError::OfficeError(m) => old(self).version.spec_ge(
                            ProductVersion { major: 6, minor: 0 },
                        ) && poll@.len() > 0 && m@ == poll@,
                        _ => false,
                    }
                },
            },
    {
        if !self.version.is_optional_features_available() {
            return Err(OfficeError::MissingFunction("setOptionalFeatures"));
        }
        match self.get_error(poll) {
            Some(m) => Err(OfficeError::OfficeError(m)),
            None => {
                self.features = features;
                Ok(())
            },
        }
    }
}

impl CallbackOffice {
    /// Produces a strong reference to the engine from within a
    /// notification handler: one more counted owner of the same
    /// instance. The upgrade fails cleanly once the last strong owner is
    /// gone, or when the handle belongs to an earlier instance, so
    /// handler code can never reach a destroyed engine through it.
    pub fn into_office(self, office: &mut Office) -> (r: Result<(), OfficeError>)
        requires
            old(office).wf(),
            old(office).strong < u64::MAX,
        ensures
            final(office).wf(),
            match r {
                Ok(()) => {
                    &&& old(office).strong >= 1
                    &&& self.instance == old(office).instance
                    &&& Office::same_identity(*old(office), *final(office))
                    &&& final(office).strong == old(office).strong + 1
                    &&& final(office).callback == old(office).callback
                    &&& final(office).next_handler == old(office).next_handler
                    &&& final(office).freed == old(office).freed
                    &&& final(office).prompts_issued == old(office).prompts_issued
                },
                Err(e) => e == OfficeError::InstanceDropped && (old(office).strong == 0
                    || self.instance != old(office).instance) && *final(office) == *old(office),
            },
    {
        if office.strong >= 1 && self.instance == office.instance {
            office.clone_handle();
            Ok(())
        } else {
            Err(OfficeError::InstanceDropped)
        }
    }

    /// Answers a password prompt for the document behind the address:
    /// either a password for the engine to retry decryption with, or
    /// none, which tells the engine to abandon the load. The upgrade
    /// check runs first, so a stale handle fails cleanly instead of
    /// touching a destroyed engine.
    pub fn set_document_password(
        &self,
        office: &Office,
        url: &DocUrl,
        password: Option<&str>,
        poll: &str,
    ) -> (r: Result<(), OfficeError>)
        requires
            office.wf(),
            url.wf(),
        ensures
            match r {
                Ok(()) => office.strong >= 1 && self.instance == office.instance && (
                password matches Some(p) ==> !contains_nul(p@)) && office.version.spec_ge(
                    ProductVersion { major: 6, minor: 0 },
                ) && poll@.len() == 0,
                Err(e) => match e {
                    OfficeError::InstanceDropped => office.strong == 0 || self.instance
                        != office.instance,
                    OfficeError::InvalidString => office.strong >= 1 && self.instance
                        == office.instance && (password matches Some(p) && contains_nul(p@)),
                    OfficeError::MissingFunction(n) => n@ == "setDocumentPassword"@
                        && office.strong >= 1 && self.instance == office.instance && (
                    password matches Some(p) ==> !contains_nul(p@)) && !office.version.spec_ge(
                        ProductVersion { major: 6, minor: 0 },
                    ),
                    OfficeError::OfficeError(m) => office.strong >= 1 && self.instance
                        == office.instance && (password matches Some(p) ==> !contains_nul(p@))
                        && office.version.spec_ge(ProductVersion { major: 6, minor: 0 })
                        && poll@.len() > 0 && m@ == poll@,
                    _ => false,
                },
            },
    {
        let _ = url;
        if !(office.strong >= 1 && self.instance == office.instance) {
            return Err(OfficeError::InstanceDropped);
        }
        match password {
            Some(p) => {
                if find_nul(p) {
                    return Err(OfficeError::InvalidString);
                }
            },
            None => {},
        }
        if !office.version.is_set_document_password_available() {
            return Err(OfficeError::MissingFunction("setDocumentPassword"));
        }
        match office.get_error(poll) {
            Some(m) => Err(OfficeError::OfficeError(m)),
            None => Ok(()),
        }
    }
}

/// Law: registering a second notification handler releases exactly the
/// first handler's state, exactly once, and leaves the engine targeting
/// only the new handler.
pub proof fn lemma_second_registration_releases_first(s0: Office, s1: Office, s2: Office)
    requires
        s0.wf(),
        Office::register_ok(s0, s1),
        Office::register_ok(s1, s2),
    ensures
        s1.callback == Some(s0.next_handler),
        s2.freed@.contains(s0.next_handler),
        no_dups(s2.freed@),
        s2.callback matches Some(h) && h != s0.next_handler,
{
    let h1 = s0.next_handler;
    assert(s2.freed@ == s1.freed@.push(h1));
    assert(s2.freed@[s1.freed@.len() as int] == h1);
    assert(s2.freed@.contains(h1));
    // every earlier entry of the released log is an older identity
    assert(forall|i: int| 0 <= i < s1.freed@.len() ==> s1.freed@[i] < s0.next_handler);
    assert(no_dups(s1.freed@));
    assert forall|i: int, j: int| 0 <= i < j < s2.freed@.len() implies s2.freed@[i]
        != s2.freed@[j] by {
        if j < s1.freed@.len() {
            assert(s1.freed@[i] != s1.freed@[j]);
        } else {
            assert(s2.freed@[j] == h1);
            assert(s2.freed@[i] == s1.freed@[i]);
        }
    }
}

/// Law: a handler that fails internally is contained: the exchange ends
/// at the failing answer, the load returns a plain failure, and no
/// prompt after the failing one is delivered.
pub proof fn lemma_handler_failure_contained(answers: Seq<PromptAnswer>, required: Seq<char>)
    requires
        answers.len() >= 1,
        answers[0] is HandlerFailed,
    ensures
        !prompt_run_succeeds(answers, required),
        prompts_for(answers, required) == 1,
{
}

/// Law: a handler that always declines forces a load failure, with the
/// engine stopping at the first declination.
pub proof fn lemma_always_declining_fails(answers: Seq<PromptAnswer>, required: Seq<char>)
    requires
        answers.len() >= 1,
        forall|i: int| 0 <= i < answers.len() ==> answers[i] is NoPassword,
    ensures
        !prompt_run_succeeds(answers, required),
        prompts_for(answers, required) == 1,
{
    assert(answers[0] is NoPassword);
}

/// Law: supplying the correct password at the first prompt loads the
/// document with exactly one prompt delivered.
pub proof fn lemma_correct_password_first_prompt(answers: Seq<PromptAnswer>, required: Seq<char>)
    requires
        answers.len() >= 1,
        answers[0] matches PromptAnswer::Password(p) && p@ == required,
    ensures
        prompt_run_succeeds(answers, required),
        prompts_for(answers, required) == 1,
{
}

} // verus!
