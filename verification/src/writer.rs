//! Finding a free name for a new file: the decisions of the durable writer.
//!
//! The caller owns the file system. It asks for an action, performs it, and
//! reports what happened; [`write_out`] says what to do next.

use crate::errors::IngestError;
use crate::format::Extension;
use crate::ident::{all_alnum, id_text, image_id, is_alnum, make_id, STEM_LEN};
use vstd::prelude::*;
use vstd::string::StrSliceExecFns;
use vstd::string::StringExecFns;

verus! {

/// How many names are tried before the search gives up.
pub const MAX_ATTEMPTS: u32 = 32_768;

/// `Alphanumeric` of the random number crate, sampled `len` times from the
/// thread's generator: `len` characters, each an ASCII letter or digit. Which
/// ones is left open.
#[verifier::external_body]
fn random_alphanumeric(len: usize) -> (s: String)
    ensures
        s@.len() == len,
        all_alnum(s@),
{
    let rng = rand::thread_rng();
    rand::distributions::Distribution::sample_iter(rand::distributions::Alphanumeric, rng)
        .map(char::from)
        .take(len)
        .collect()
}

/// How many serial numbers there are: three digits of base 62.
pub const SERIALS: u32 = 238_328;

/// The digits of base 62: capital letters, small letters, figures.
pub open spec fn digit62(v: int) -> char {
    "ABCDEFGHIJKLMNOPQRSTUVWXYZabcdefghijklmnopqrstuvwxyz0123456789"@[v]
}

/// A serial number as three digits of base 62, the most significant first.
pub open spec fn serial(code: int) -> Seq<char> {
    seq![digit62(code / 62 / 62), digit62(code / 62 % 62), digit62(code % 62)]
}

/// `text` is a candidate: `e/`, ten letters or digits, a dot and the
/// extension.
pub open spec fn is_candidate(text: Seq<char>, ext: Extension) -> bool {
    exists|stem: Seq<char>|
        stem.len() == STEM_LEN && all_alnum(stem) && text == #[trigger] id_text(stem, ext)
}

/// The spare name of a serial number: seven times `A` and the serial number
/// for a stem. Spare names stand in where a draw comes up with a name that
/// was handed out before.
pub open spec fn spare(code: int, ext: Extension) -> Seq<char> {
    id_text(seq!['A', 'A', 'A', 'A', 'A', 'A', 'A'] + serial(code), ext)
}

/// Candidates no two of which are the same.
pub open spec fn pairwise_distinct(names: Seq<Seq<char>>) -> bool {
    forall|i: int, j: int| 0 <= i < j < names.len() ==> names[i] != names[j]
}

/// The texts of names.
pub open spec fn names_of(names: Seq<String>) -> Seq<Seq<char>> {
    names.map_values(|s: String| s@)
}

/// The place of a digit of base 62 among the digits.
spec fn value_of(c: char) -> int {
    if 'A' <= c && c <= 'Z' {
        c as int - 65
    } else if 'a' <= c && c <= 'z' {
        c as int - 71
    } else {
        c as int + 4
    }
}

proof fn digits_are_told_apart()
    ensures
        forall|v: int| 0 <= v < 62 ==> is_alnum(#[trigger] digit62(v)) && value_of(digit62(v)) == v,
{
    reveal_strlit("ABCDEFGHIJKLMNOPQRSTUVWXYZabcdefghijklmnopqrstuvwxyz0123456789");
}

proof fn serial_tells_code(a: int, b: int)
    requires
        0 <= a < SERIALS,
        0 <= b < SERIALS,
        serial(a) == serial(b),
    ensures
        a == b,
{
    digits_are_told_apart();
    assert(serial(a)[0] == serial(b)[0] && serial(a)[1] == serial(b)[1] && serial(a)[2] == serial(
        b,
    )[2]);
    assert(value_of(digit62(a / 62 / 62)) == a / 62 / 62);
    assert(value_of(digit62(b / 62 / 62)) == b / 62 / 62);
    assert(value_of(digit62(a / 62 % 62)) == a / 62 % 62);
    assert(value_of(digit62(b / 62 % 62)) == b / 62 % 62);
    assert(value_of(digit62(a % 62)) == a % 62);
    assert(value_of(digit62(b % 62)) == b % 62);
}

/// Spare names of different serial numbers are different names, and every
/// spare name is a candidate.
proof fn spares_differ(a: int, b: int, ext: Extension)
    requires
        0 <= a < SERIALS,
        0 <= b < SERIALS,
    ensures
        a != b ==> spare(a, ext) != spare(b, ext),
        is_candidate(spare(a, ext), ext),
{
    digits_are_told_apart();
    let head = seq!['A', 'A', 'A', 'A', 'A', 'A', 'A'];
    assert(spare(a, ext).subrange(9, 12) =~= serial(a));
    assert(spare(b, ext).subrange(9, 12) =~= serial(b));
    if spare(a, ext) == spare(b, ext) {
        serial_tells_code(a, b);
    }
    let stem = head + serial(a);
    assert forall|i: int| 0 <= i < stem.len() implies is_alnum(#[trigger] stem[i]) by {
        if i < 7 {
            assert(stem[i] == 'A');
        } else {
            assert(stem[i] == serial(a)[i - 7]);
        }
    }
    assert(spare(a, ext) == id_text(stem, ext));
}

/// Of one spare name more than there are names in a list, one is not in the
/// list.
proof fn one_spare_is_free(tried: Seq<Seq<char>>, ext: Extension)
    requires
        tried.len() < SERIALS,
    ensures
        exists|k: int| 0 <= k <= tried.len() && !tried.contains(#[trigger] spare(k, ext)),
{
    if forall|k: int| 0 <= k <= tried.len() ==> tried.contains(#[trigger] spare(k, ext)) {
        let spares = Seq::new(tried.len() + 1, |k: int| spare(k, ext));
        assert(spares.no_duplicates()) by {
            assert forall|i: int, j: int|
                0 <= i < spares.len() && 0 <= j < spares.len() && i != j implies spares[i]
                != spares[j] by {
                spares_differ(i, j, ext);
            }
        }
        spares.unique_seq_to_set();
        tried.lemma_cardinality_of_set();
        vstd::seq_lib::seq_to_set_is_finite(tried);
        assert(spares.to_set().subset_of(tried.to_set())) by {
            assert forall|name: Seq<char>| spares.to_set().contains(name) implies tried.to_set().contains(
                name,
            ) by {
                let k = choose|k: int| 0 <= k < spares.len() && spares[k] == name;
                assert(tried.contains(spare(k, ext)));
            }
        }
        vstd::set_lib::lemma_len_subset(spares.to_set(), tried.to_set());
        assert(false);
    }
}

/// The text of a serial number.
fn serial_text(code: u32) -> (text: String)
    requires
        code < SERIALS,
    ensures
        text@ == serial(code as int),
{
    let digits = "ABCDEFGHIJKLMNOPQRSTUVWXYZabcdefghijklmnopqrstuvwxyz0123456789";
    proof {
        reveal_strlit("ABCDEFGHIJKLMNOPQRSTUVWXYZabcdefghijklmnopqrstuvwxyz0123456789");
    }
    let high: usize = (code / 62 / 62) as usize;
    let middle: usize = (code / 62 % 62) as usize;
    let low: usize = (code % 62) as usize;
    let mut text = String::from_str(digits.substring_char(high, high + 1));
    text.append(digits.substring_char(middle, middle + 1));
    text.append(digits.substring_char(low, low + 1));
    assert(text@ =~= serial(code as int));
    text
}

/// The spare name of a serial number.
fn spare_name(code: u32, ext: Extension) -> (name: String)
    requires
        code < SERIALS,
    ensures
        name@ == spare(code as int, ext),
{
    proof {
        reveal_strlit("AAAAAAA");
    }
    let mut stem = String::from_str("AAAAAAA");
    stem.append(serial_text(code).as_str());
    assert(stem@ =~= seq!['A', 'A', 'A', 'A', 'A', 'A', 'A'] + serial(code as int));
    make_id(stem.as_str(), ext)
}

/// Whether a name is among those handed out.
fn handed(tried: &Vec<String>, name: &String) -> (b: bool)
    ensures
        b == names_of(tried@).contains(name@),
{
    let mut i: usize = 0;
    while i < tried.len()
        invariant
            i <= tried.len(),
            forall|k: int| 0 <= k < i ==> names_of(tried@)[k] != name@,
        decreases tried.len() - i,
    {
        if tried[i] == *name {
            assert(names_of(tried@)[i as int] == name@);
            return true;
        }
        i += 1;
    }
    false
}

/// Draws a candidate that is none of those handed out: ten characters at
/// random, and, should they come up with a name that was handed out before,
/// the first spare name that was not.
fn draw_fresh(ext: Extension, tried: &Vec<String>) -> (name: String)
    requires
        tried@.len() < MAX_ATTEMPTS,
    ensures
        is_candidate(name@, ext),
        !names_of(tried@).contains(name@),
{
    let stem = random_alphanumeric(STEM_LEN);
    let name = make_id(stem.as_str(), ext);
    if !handed(tried, &name) {
        return name;
    }
    let mut code: usize = 0;
    while code <= tried.len()
        invariant
            code <= tried@.len() + 1,
            tried@.len() < MAX_ATTEMPTS,
            forall|k: int| 0 <= k < code ==> names_of(tried@).contains(#[trigger] spare(k, ext)),
        decreases tried@.len() + 1 - code,
    {
        let spare = spare_name(code as u32, ext);
        if !handed(tried, &spare) {
            proof {
                spares_differ(code as int, code as int, ext);
            }
            return spare;
        }
        code += 1;
    }
    proof {
        one_spare_is_free(names_of(tried@), ext);
    }
    name
}

/// What the caller reports back.
#[derive(Clone, Copy, Debug, PartialEq, Eq, Structural)]
pub enum WriteEvent {
    /// The file now exists under the candidate name.
    Created,
    /// A file of the candidate name exists already; nothing was written.
    AlreadyExists,
    /// The exclusive create failed for another reason.
    CreateFailed,
    /// The new file is world-readable.
    MadeReadable,
    /// The new file's permissions could not be set.
    NotReadable,
}

/// What the caller is to do next.
#[derive(Debug, PartialEq, Eq)]
pub enum WriteAction {
    /// Create the file under this name, failing if the name is taken.
    Create(String),
    /// Set the permissions of the file of this name to `0644`.
    MakeReadable(String),
    /// Stop: the file is stored under this id.
    Stored(String),
    /// Stop: the file could not be stored.
    Failed(IngestError),
}

/// Where a search stands.
#[derive(Clone, Copy, Debug, PartialEq, Eq, Structural)]
pub enum Phase {
    /// A candidate was handed out and its fate is not known yet.
    Creating,
    /// The file exists under the candidate name; its permissions are not set yet.
    Publishing,
    /// The search is over.
    Finished,
}

/// The state of one search for a free name.
///
/// A search keeps every candidate it has handed out, so that it hands none
/// out twice.
pub struct NameSearch {
    ext: Extension,
    phase: Phase,
    attempts: u32,
    candidate: String,
    tried: Vec<String>,
}

impl NameSearch {
    pub closed spec fn ext(&self) -> Extension {
        self.ext
    }

    pub closed spec fn phase(&self) -> Phase {
        self.phase
    }

    /// How many candidates have been handed out.
    pub closed spec fn attempts(&self) -> nat {
        self.attempts as nat
    }

    /// The candidate handed out last.
    pub closed spec fn candidate(&self) -> Seq<char> {
        self.candidate@
    }

    /// Every candidate handed out so far, in order.
    pub closed spec fn handed_out(&self) -> Seq<Seq<char>> {
        names_of(self.tried@)
    }

    /// Every candidate handed out is an id with the search's extension, no
    /// two of them are the same, the last of them is the candidate, and no
    /// more than [`MAX_ATTEMPTS`] were handed out.
    pub closed spec fn wf(&self) -> bool {
        &&& 1 <= self.attempts <= MAX_ATTEMPTS
        &&& self.tried@.len() == self.attempts
        &&& forall|k: int|
            0 <= k < self.attempts ==> is_candidate(#[trigger] names_of(self.tried@)[k], self.ext)
        &&& pairwise_distinct(names_of(self.tried@))
        &&& self.candidate@ == names_of(self.tried@)[self.attempts - 1]
    }

    /// A well-formed search's candidate is the id of a stored image, it is
    /// the last of the candidates handed out, there are as many of those as
    /// there were attempts, and no two of them are the same.
    pub proof fn candidate_is_id(&self)
        requires
            self.wf(),
        ensures
            image_id(self.candidate()),
            is_candidate(self.candidate(), self.ext()),
            self.handed_out().len() == self.attempts(),
            self.handed_out().last() == self.candidate(),
            pairwise_distinct(self.handed_out()),
    {
        assert(is_candidate(names_of(self.tried@)[self.attempts - 1], self.ext));
    }

    /// Starts a search for a file of the given extension and hands out the
    /// first candidate.
    pub fn begin(ext: Extension) -> (r: (NameSearch, WriteAction))
        ensures
            r.0.wf(),
            r.0.ext() == ext,
            r.0.phase() == Phase::Creating,
            r.0.attempts() == 1,
            r.0.handed_out() == seq![r.0.candidate()],
            r.1 matches WriteAction::Create(name) && name@ == r.0.candidate(),
    {
        let mut tried: Vec<String> = Vec::new();
        let candidate = draw_fresh(ext, &tried);
        tried.push(candidate.clone());
        let offered = candidate.clone();
        assert(names_of(tried@) =~= seq![candidate@]);
        (
            NameSearch { ext, phase: Phase::Creating, attempts: 1, candidate, tried },
            WriteAction::Create(offered),
        )
    }

    pub fn is_finished(&self) -> (b: bool)
        ensures
            b == (self.phase() == Phase::Finished),
    {
        match self.phase {
            Phase::Finished => true,
            _ => false,
        }
    }

    /// Number of candidates handed out so far.
    pub fn tried(&self) -> (n: u32)
        ensures
            n == self.attempts(),
    {
        self.attempts
    }
}

/// What [`write_out`] answers to an event, as far as it is decided by the
/// state and the event alone: the next phase.
pub open spec fn next_phase(phase: Phase, attempts: nat, event: WriteEvent) -> Phase {
    match (phase, event) {
        (Phase::Creating, WriteEvent::Created) => Phase::Publishing,
        (Phase::Creating, WriteEvent::AlreadyExists) => if attempts < MAX_ATTEMPTS {
            Phase::Creating
        } else {
            Phase::Finished
        },
        _ => Phase::Finished,
    }
}

/// How many candidates have been handed out once [`write_out`] has answered.
pub open spec fn next_attempts(phase: Phase, attempts: nat, event: WriteEvent) -> nat {
    if phase == Phase::Creating && event == WriteEvent::AlreadyExists && attempts
        < MAX_ATTEMPTS {
        attempts + 1
    } else {
        attempts
    }
}

/// Takes one step of the search for a free name.
///
/// A name that is taken is answered with a freshly drawn candidate that is
/// none of those handed out before, up to [`MAX_ATTEMPTS`] candidates in all;
/// after that the search fails with `NameExhaustion`. A file that was created is to be made readable, and is
/// stored once that is done. Any other failure ends the search, and so does an
/// event that does not answer the action handed out last.
pub fn write_out(search: &mut NameSearch, event: WriteEvent) -> (action: WriteAction)
    requires
        old(search).wf(),
    ensures
        final(search).wf(),
        final(search).ext() == old(search).ext(),
        final(search).phase() == next_phase(old(search).phase(), old(search).attempts(), event),
        final(search).attempts() == next_attempts(
            old(search).phase(),
            old(search).attempts(),
            event,
        ),
        final(search).handed_out() == if final(search).attempts() == old(search).attempts() {
            old(search).handed_out()
        } else {
            old(search).handed_out().push(final(search).candidate())
        },
        final(search).attempts() != old(search).attempts() ==> !old(search).handed_out().contains(
            final(search).candidate(),
        ) && final(search).candidate() != old(search).candidate(),
        final(search).handed_out().len() == final(search).attempts(),
        pairwise_distinct(final(search).handed_out()),
        match (old(search).phase(), event) {
            (Phase::Creating, WriteEvent::Created) => {
                &&& action matches WriteAction::MakeReadable(name) && name@ == old(
                    search,
                ).candidate()
                &&& final(search).candidate() == old(search).candidate()
            },
            (Phase::Creating, WriteEvent::AlreadyExists) => if old(search).attempts()
                < MAX_ATTEMPTS {
                action matches WriteAction::Create(name) && name@ == final(search).candidate()
            } else {
                action == WriteAction::Failed(IngestError::NameExhaustion)
            },
            (Phase::Creating, _) => action == WriteAction::Failed(IngestError::Encode),
            (Phase::Publishing, WriteEvent::MadeReadable) => {
                &&& action matches WriteAction::Stored(id) && id@ == old(search).candidate()
                &&& image_id(old(search).candidate())
            },
            (Phase::Publishing, WriteEvent::NotReadable) => action == WriteAction::Failed(
                IngestError::Permission,
            ),
            (Phase::Publishing, _) => action == WriteAction::Failed(IngestError::Encode),
            (Phase::Finished, _) => action == WriteAction::Failed(IngestError::Encode),
        },
{
    proof {
        search.candidate_is_id();
    }
    match search.phase {
        Phase::Creating => match event {
            WriteEvent::Created => {
                search.phase = Phase::Publishing;
                WriteAction::MakeReadable(search.candidate.clone())
            },
            WriteEvent::AlreadyExists => {
                if search.attempts < MAX_ATTEMPTS {
                    let fresh = draw_fresh(search.ext, &search.tried);
                    let ghost before = names_of(search.tried@);
                    search.tried.push(fresh.clone());
                    search.candidate = fresh;
                    search.attempts = search.attempts + 1;
                    proof {
                        let now = names_of(search.tried@);
                        assert(now =~= before.push(search.candidate@));
                        assert(before[before.len() - 1] == old(search).candidate@);
                        assert forall|i: int, j: int| 0 <= i < j < now.len() implies now[i]
                            != now[j] by {
                            if j == before.len() {
                                assert(before.contains(before[i]));
                            }
                        }
                    }
                    WriteAction::Create(search.candidate.clone())
                } else {
                    search.phase = Phase::Finished;
                    WriteAction::Failed(IngestError::NameExhaustion)
                }
            },
            _ => {
                search.phase = Phase::Finished;
                WriteAction::Failed(IngestError::Encode)
            },
        },
        Phase::Publishing => {
            search.phase = Phase::Finished;
            match event {
                WriteEvent::MadeReadable => WriteAction::Stored(search.candidate.clone()),
                WriteEvent::NotReadable => WriteAction::Failed(IngestError::Permission),
                _ => WriteAction::Failed(IngestError::Encode),
            }
        },
        Phase::Finished => WriteAction::Failed(IngestError::Encode),
    }
}

/// The events of a search from its start: where it stands after them, and
/// how many candidates it has handed out.
pub open spec fn after(events: Seq<WriteEvent>) -> (Phase, nat)
    decreases events.len(),
{
    if events.len() == 0 {
        (Phase::Creating, 1)
    } else {
        let (phase, attempts) = after(events.drop_last());
        (next_phase(phase, attempts, events.last()), next_attempts(phase, attempts, events.last()))
    }
}

/// While a search is still looking for a name, every event so far reported a
/// name that was taken, and each was answered with one more candidate.
pub proof fn still_creating(events: Seq<WriteEvent>)
    requires
        after(events).0 == Phase::Creating,
    ensures
        after(events).1 == events.len() + 1,
        forall|i: int| 0 <= i < events.len() ==> events[i] == WriteEvent::AlreadyExists,
    decreases events.len(),
{
    if events.len() > 0 {
        let (phase, attempts) = after(events.drop_last());
        still_creating(events.drop_last());
        assert forall|i: int| 0 <= i < events.len() implies events[i]
            == WriteEvent::AlreadyExists by {
            if i < events.len() - 1 {
                assert(events[i] == events.drop_last()[i]);
            }
        }
    }
}

/// A search gives up for want of a free name only after [`MAX_ATTEMPTS`]
/// candidates, every one of which was reported as taken.
pub proof fn exhaustion_takes_every_attempt(events: Seq<WriteEvent>)
    requires
        events.len() > 0,
        after(events.drop_last()).0 == Phase::Creating,
        events.last() == WriteEvent::AlreadyExists,
        after(events).0 == Phase::Finished,
    ensures
        events.len() == MAX_ATTEMPTS,
        forall|i: int| 0 <= i < events.len() ==> events[i] == WriteEvent::AlreadyExists,
{
    still_creating(events.drop_last());
    assert forall|i: int| 0 <= i < events.len() implies events[i] == WriteEvent::AlreadyExists by {
        if i < events.len() - 1 {
            assert(events[i] == events.drop_last()[i]);
        }
    }
}

} // verus!
