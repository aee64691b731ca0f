//! Global shortcuts: which ones the settings ask for, and bringing the registrations of the
//! system in line with them.

use crate::text::{concat2, concat3, join, joined, str_eq, views};
use vstd::prelude::*;

verus! {

// ---------------------------------------------------------------------------
// The configured shortcuts
// ---------------------------------------------------------------------------

/// The shortcuts among parsed hotkeys that the system registers; the others go through the
/// keyboard hook.
pub open spec fn registered_ones(parsed: Seq<Result<Option<String>, String>>) -> Seq<Seq<char>>
    decreases parsed.len(),
{
    if parsed.len() == 0 {
        Seq::empty()
    } else {
        let before = registered_ones(parsed.drop_last());
        match parsed.last() {
            Ok(Some(shortcut)) => before.push(shortcut@),
            _ => before,
        }
    }
}

/// Whether a hotkey before the `i`-th cannot be parsed.
pub open spec fn parses_up_to(parsed: Seq<Result<Option<String>, String>>, i: int) -> bool {
    forall|k: int| 0 <= k < i ==> (#[trigger] parsed[k]) is Ok
}

/// The shortcuts that the system registers, in order, or the error of the first hotkey
/// that cannot be parsed.
pub fn global_hotkeys(parsed: &Vec<Result<Option<String>, String>>) -> (res: Result<
    Vec<String>,
    String,
>)
    ensures
        match res {
            Ok(shortcuts) => parses_up_to(parsed@, parsed@.len() as int) && views(shortcuts@)
                == registered_ones(parsed@),
            Err(error) => exists|i: int|
                0 <= i < parsed@.len() && parses_up_to(parsed@, i) && (#[trigger] parsed@[i])
                    == Err::<Option<String>, String>(error),
        },
{
    let mut shortcuts: Vec<String> = Vec::new();
    let mut i: usize = 0;
    assert(views(shortcuts@) =~= registered_ones(parsed@.take(0)));
    while i < parsed.len()
        invariant
            i <= parsed@.len(),
            parses_up_to(parsed@, i as int),
            views(shortcuts@) == registered_ones(parsed@.take(i as int)),
        decreases parsed@.len() - i,
    {
        let ghost before = shortcuts@;
        proof {
            assert(parsed@.take(i + 1).drop_last() =~= parsed@.take(i as int));
            assert(parsed@.take(i + 1).last() == parsed@[i as int]);
        }
        match &parsed[i] {
            Ok(found) => {
                if let Some(shortcut) = found {
                    shortcuts.push(shortcut.clone());
                    assert(views(shortcuts@) =~= views(before).push(shortcut@));
                }
            },
            Err(error) => {
                let error = error.clone();
                assert(parsed@[i as int] == Err::<Option<String>, String>(error));
                return Err(error);
            },
        }
        i += 1;
    }
    assert(parsed@.take(i as int) =~= parsed@);
    Ok(shortcuts)
}

/// Whether a shortcut that was pressed is one of the configured ones. Hotkeys that cannot
/// be parsed match nothing.
pub fn active_shortcut_matches(
    parsed: &Vec<Result<Option<String>, String>>,
    shortcut: &str,
) -> (r: bool)
    ensures
        r == exists|i: int|
            0 <= i < parsed@.len() && (#[trigger] parsed@[i]) is Ok && parsed@[i]->Ok_0 is Some
                && parsed@[i]->Ok_0->0@ == shortcut@,
{
    let mut i: usize = 0;
    while i < parsed.len()
        invariant
            i <= parsed@.len(),
            forall|k: int|
                0 <= k < i ==> !((#[trigger] parsed@[k]) is Ok && parsed@[k]->Ok_0 is Some
                    && parsed@[k]->Ok_0->0@ == shortcut@),
        decreases parsed@.len() - i,
    {
        if let Ok(Some(active)) = &parsed[i] {
            if str_eq(active.as_str(), shortcut) {
                assert(parsed@[i as int]->Ok_0->0@ == shortcut@);
                return true;
            }
        }
        i += 1;
    }
    false
}

// ---------------------------------------------------------------------------
// Registrations
// ---------------------------------------------------------------------------

/// Where a change of the registrations stands: what is due next, with the index of the
/// shortcut in its list.
#[derive(Debug, Clone, Copy, PartialEq, Eq, Structural)]
pub enum SyncPhase {
    /// Is this new shortcut registered?
    AskNew(usize),
    /// Register this new shortcut.
    Register(usize),
    /// Is this old shortcut registered?
    AskOld(usize),
    /// Unregister this old shortcut.
    Unregister(usize),
    /// Register a removed shortcut again.
    Restore(usize),
    /// Unregister an added shortcut.
    Withdraw(usize),
    Finished,
}

/// What the system is asked for.
#[derive(Debug, Clone, PartialEq, Eq)]
pub enum HotkeyCall {
    IsRegistered(String),
    Register(String),
    Unregister(String),
}

/// What the system answered.
#[derive(Debug, PartialEq, Eq)]
pub enum HotkeyAnswer {
    Registered(bool),
    Done(Result<(), String>),
}

/// A change of the registrations from the old shortcuts to the new ones: what is due, the
/// shortcuts added and removed so far, the warnings, and after a failure its error, whether
/// it came while removing, and what could not be undone.
#[derive(Debug, PartialEq, Eq)]
pub struct HotkeySync {
    pub old: Vec<String>,
    pub new: Vec<String>,
    pub phase: SyncPhase,
    pub added: Vec<String>,
    pub removed: Vec<String>,
    pub warnings: Vec<String>,
    pub error: Option<String>,
    pub replacing: bool,
    pub undone: Vec<String>,
}

/// The same over sequences of characters.
#[verifier::ext_equal]
pub struct SyncModel {
    pub old: Seq<Seq<char>>,
    pub new: Seq<Seq<char>>,
    pub phase: SyncPhase,
    pub added: Seq<Seq<char>>,
    pub removed: Seq<Seq<char>>,
    pub warnings: Seq<Seq<char>>,
    pub error: Option<Seq<char>>,
    pub replacing: bool,
    pub undone: Seq<Seq<char>>,
}

impl View for HotkeySync {
    type V = SyncModel;

    open spec fn view(&self) -> SyncModel {
        SyncModel {
            old: views(self.old@),
            new: views(self.new@),
            phase: self.phase,
            added: views(self.added@),
            removed: views(self.removed@),
            warnings: views(self.warnings@),
            error: match self.error {
                Some(error) => Some(error@),
                None => None,
            },
            replacing: self.replacing,
            undone: views(self.undone@),
        }
    }
}

/// The first index from `i` on of an old shortcut that is not wanted any more, or the length.
pub open spec fn next_dropped(old: Seq<Seq<char>>, new: Seq<Seq<char>>, i: int) -> int
    decreases old.len() - i,
{
    if 0 <= i < old.len() && new.contains(old[i]) {
        next_dropped(old, new, i + 1)
    } else {
        i
    }
}

impl SyncModel {
    /// The index of what is due lies in its list.
    pub open spec fn wf(self) -> bool {
        match self.phase {
            SyncPhase::AskNew(i) => i < self.new.len(),
            SyncPhase::Register(i) => i < self.new.len(),
            SyncPhase::AskOld(i) => i < self.old.len(),
            SyncPhase::Unregister(i) => i < self.old.len(),
            SyncPhase::Restore(i) => i < self.removed.len(),
            SyncPhase::Withdraw(i) => i < self.added.len(),
            SyncPhase::Finished => true,
        }
    }

    /// Goes on with the old shortcuts from `i` on; those that stay are passed over.
    pub open spec fn at_old(self, i: int) -> SyncModel {
        let next = next_dropped(self.old, self.new, i);
        SyncModel {
            phase: if next < self.old.len() {
                SyncPhase::AskOld(next as usize)
            } else {
                SyncPhase::Finished
            },
            ..self
        }
    }

    /// Goes on with the new shortcuts from `i` on, then with the old ones.
    pub open spec fn at_new(self, i: int) -> SyncModel {
        if i < self.new.len() {
            SyncModel { phase: SyncPhase::AskNew(i as usize), ..self }
        } else {
            self.at_old(0)
        }
    }

    /// Goes on with withdrawing what was added, from `i` on.
    pub open spec fn at_withdrawing(self, i: int) -> SyncModel {
        SyncModel {
            phase: if i < self.added.len() {
                SyncPhase::Withdraw(i as usize)
            } else {
                SyncPhase::Finished
            },
            ..self
        }
    }

    /// Goes on with restoring the first `left` of what was removed, last first.
    pub open spec fn at_restoring(self, left: int) -> SyncModel {
        if left > 0 {
            SyncModel { phase: SyncPhase::Restore((left - 1) as usize), ..self }
        } else {
            self.at_withdrawing(0)
        }
    }

    /// The change that begins: nothing was done yet.
    pub open spec fn begun(old: Seq<Seq<char>>, new: Seq<Seq<char>>) -> SyncModel {
        SyncModel {
            old,
            new,
            phase: SyncPhase::Finished,
            added: Seq::empty(),
            removed: Seq::empty(),
            warnings: Seq::empty(),
            error: None,
            replacing: false,
            undone: Seq::empty(),
        }.at_new(0)
    }

    /// Something could not be undone after a failed removal.
    pub open spec fn not_undone(
        self,
        verb: Seq<char>,
        shortcut: Seq<char>,
        error: Seq<char>,
    ) -> SyncModel {
        SyncModel { undone: self.undone.push(verb + shortcut + ": "@ + error), ..self }
    }

    /// What an answer of the system leads to. New shortcuts that are not registered are
    /// registered first. One that was configured before and still cannot be had gives a
    /// warning; any other failure withdraws those added. Then old ones that are registered
    /// and not wanted any more are unregistered; where that fails for one, those removed are
    /// registered again, last first, and those added are withdrawn.
    pub open spec fn after(self, answer: HotkeyAnswer) -> SyncModel {
        match (self.phase, answer) {
            (SyncPhase::AskNew(i), HotkeyAnswer::Registered(known)) => if known {
                self.at_new(i + 1)
            } else {
                SyncModel { phase: SyncPhase::Register(i), ..self }
            },
            (SyncPhase::Register(i), HotkeyAnswer::Done(Ok(_))) => SyncModel {
                added: self.added.push(self.new[i as int]),
                ..self
            }.at_new(i + 1),
            (SyncPhase::Register(i), HotkeyAnswer::Done(Err(error))) => if self.old.contains(
                self.new[i as int],
            ) {
                SyncModel {
                    warnings: self.warnings.push(
                        "global save hotkey still unavailable: "@ + error@,
                    ),
                    ..self
                }.at_new(i + 1)
            } else {
                SyncModel { error: Some("register hotkey: "@ + error@), ..self }.at_withdrawing(0)
            },
            (SyncPhase::AskOld(i), HotkeyAnswer::Registered(known)) => if known {
                SyncModel { phase: SyncPhase::Unregister(i), ..self }
            } else {
                self.at_old(i + 1)
            },
            (SyncPhase::Unregister(i), HotkeyAnswer::Done(Ok(_))) => SyncModel {
                removed: self.removed.push(self.old[i as int]),
                ..self
            }.at_old(i + 1),
            (SyncPhase::Unregister(_), HotkeyAnswer::Done(Err(error))) => SyncModel {
                error: Some("replace hotkey: "@ + error@),
                replacing: true,
                ..self
            }.at_restoring(self.removed.len() as int),
            (SyncPhase::Restore(i), HotkeyAnswer::Done(Ok(_))) => self.at_restoring(i as int),
            (SyncPhase::Restore(i), HotkeyAnswer::Done(Err(error))) => self.not_undone(
                "re-register "@,
                self.removed[i as int],
                error@,
            ).at_restoring(i as int),
            (SyncPhase::Withdraw(i), HotkeyAnswer::Done(Err(error))) => if self.replacing {
                self.not_undone("unregister "@, self.added[i as int], error@).at_withdrawing(i + 1)
            } else {
                self.at_withdrawing(i + 1)
            },
            (SyncPhase::Withdraw(i), HotkeyAnswer::Done(Ok(_))) => self.at_withdrawing(i + 1),
            _ => self,
        }
    }

    /// Whether an answer is one to what is due.
    pub open spec fn takes(self, answer: HotkeyAnswer) -> bool {
        match self.phase {
            SyncPhase::AskNew(_) => answer is Registered,
            SyncPhase::AskOld(_) => answer is Registered,
            SyncPhase::Finished => false,
            _ => answer is Done,
        }
    }

    /// The shortcut that what is due is about.
    pub open spec fn subject(self) -> Seq<char> {
        match self.phase {
            SyncPhase::AskNew(i) => self.new[i as int],
            SyncPhase::Register(i) => self.new[i as int],
            SyncPhase::AskOld(i) => self.old[i as int],
            SyncPhase::Unregister(i) => self.old[i as int],
            SyncPhase::Restore(i) => self.removed[i as int],
            SyncPhase::Withdraw(i) => self.added[i as int],
            SyncPhase::Finished => Seq::empty(),
        }
    }

    /// Whether a shortcut is to be registered.
    pub open spec fn registers(self) -> bool {
        self.phase is Register || self.phase is Restore
    }

    /// Whether a shortcut is to be unregistered.
    pub open spec fn unregisters(self) -> bool {
        self.phase is Unregister || self.phase is Withdraw
    }

    /// The result once nothing is due: the warnings, or the error.
    pub open spec fn result(self) -> Result<Seq<Seq<char>>, Seq<char>> {
        match self.error {
            None => Ok(self.warnings),
            Some(error) => if self.undone.len() == 0 {
                Err(error)
            } else {
                Err(error + "; rollback incomplete: "@ + joined(self.undone, ", "@))
            },
        }
    }
}

fn contains_text(list: &Vec<String>, text: &str) -> (r: bool)
    ensures
        r == views(list@).contains(text@),
{
    let mut i: usize = 0;
    while i < list.len()
        invariant
            i <= list@.len(),
            forall|k: int| 0 <= k < i ==> (#[trigger] list@[k])@ != text@,
        decreases list@.len() - i,
    {
        if str_eq(list[i].as_str(), text) {
            assert(views(list@)[i as int] == text@);
            return true;
        }
        i += 1;
    }
    assert forall|k: int| 0 <= k < views(list@).len() implies views(list@)[k] != text@ by {
        assert(list@[k]@ != text@);
    }
    false
}

/// The next old shortcut that is not wanted any more.
fn find_dropped(old: &Vec<String>, new: &Vec<String>, from: usize) -> (next: usize)
    requires
        from <= old@.len(),
    ensures
        next == next_dropped(views(old@), views(new@), from as int),
        from <= next <= old@.len(),
{
    let mut i: usize = from;
    while i < old.len()
        invariant
            from <= i <= old@.len(),
            next_dropped(views(old@), views(new@), from as int) == next_dropped(
                views(old@),
                views(new@),
                i as int,
            ),
        decreases old@.len() - i,
    {
        if !contains_text(new, old[i].as_str()) {
            return i;
        }
        i += 1;
    }
    i
}

/// Begins to bring the registrations of the system in line with the configured shortcuts:
/// those new in `new` are registered, those dropped from `old` are unregistered. A shortcut
/// that was already configured and still cannot be registered gives a warning; any other
/// failure takes this change's registrations back and is an error.
pub fn sync_global_hotkeys(old: Vec<String>, new: Vec<String>) -> (sync: HotkeySync)
    ensures
        sync@ == SyncModel::begun(views(old@), views(new@)),
        sync@.wf(),
{
    let mut sync = HotkeySync {
        old,
        new,
        phase: SyncPhase::Finished,
        added: Vec::new(),
        removed: Vec::new(),
        warnings: Vec::new(),
        error: None,
        replacing: false,
        undone: Vec::new(),
    };
    assert(views(sync.added@) =~= Seq::empty());
    sync.go_on_with_new(0);
    sync
}

impl HotkeySync {
    fn go_on_with_old(&mut self, from: usize)
        requires
            from <= old(self).old@.len(),
        ensures
            final(self)@ == old(self)@.at_old(from as int),
            final(self)@.wf(),
    {
        let next: usize = find_dropped(&self.old, &self.new, from);
        self.phase = if next < self.old.len() {
            SyncPhase::AskOld(next)
        } else {
            SyncPhase::Finished
        };
    }

    fn go_on_with_new(&mut self, from: usize)
        requires
            from <= old(self).new@.len(),
        ensures
            final(self)@ == old(self)@.at_new(from as int),
            final(self)@.wf(),
    {
        if from < self.new.len() {
            self.phase = SyncPhase::AskNew(from);
        } else {
            self.go_on_with_old(0);
        }
    }

    fn go_on_withdrawing(&mut self, from: usize)
        requires
            from <= old(self).added@.len(),
        ensures
            final(self)@ == old(self)@.at_withdrawing(from as int),
            final(self)@.wf(),
    {
        self.phase = if from < self.added.len() {
            SyncPhase::Withdraw(from)
        } else {
            SyncPhase::Finished
        };
    }

    fn go_on_restoring(&mut self, left: usize)
        requires
            left <= old(self).removed@.len(),
        ensures
            final(self)@ == old(self)@.at_restoring(left as int),
            final(self)@.wf(),
    {
        if left > 0 {
            self.phase = SyncPhase::Restore(left - 1);
        } else {
            self.go_on_withdrawing(0);
        }
    }

    fn record_undone(&mut self, verb: &str, shortcut: &String, error: &String)
        ensures
            final(self)@ == old(self)@.not_undone(verb@, shortcut@, error@),
    {
        let head = concat3(verb, shortcut.as_str(), ": ");
        let text = concat2(head.as_str(), error.as_str());
        let ghost before = self.undone@;
        self.undone.push(text);
        assert(views(self.undone@) =~= views(before).push(text@));
    }

    /// What the system is asked for next, if anything.
    pub fn due(&self) -> (call: Option<HotkeyCall>)
        requires
            self@.wf(),
        ensures
            match call {
                Some(HotkeyCall::IsRegistered(shortcut)) => !self@.registers()
                    && !self@.unregisters() && self.phase != SyncPhase::Finished && shortcut@
                    == self@.subject(),
                Some(HotkeyCall::Register(shortcut)) => self@.registers() && shortcut@
                    == self@.subject(),
                Some(HotkeyCall::Unregister(shortcut)) => self@.unregisters() && shortcut@
                    == self@.subject(),
                None => self.phase == SyncPhase::Finished,
            },
    {
        match self.phase {
            SyncPhase::AskNew(i) => Some(HotkeyCall::IsRegistered(self.new[i].clone())),
            SyncPhase::Register(i) => Some(HotkeyCall::Register(self.new[i].clone())),
            SyncPhase::AskOld(i) => Some(HotkeyCall::IsRegistered(self.old[i].clone())),
            SyncPhase::Unregister(i) => Some(HotkeyCall::Unregister(self.old[i].clone())),
            SyncPhase::Restore(i) => Some(HotkeyCall::Register(self.removed[i].clone())),
            SyncPhase::Withdraw(i) => Some(HotkeyCall::Unregister(self.added[i].clone())),
            SyncPhase::Finished => None,
        }
    }

    /// The system answered what was due.
    pub fn answered(&mut self, answer: HotkeyAnswer)
        requires
            old(self)@.wf(),
            old(self)@.takes(answer),
        ensures
            final(self)@ == old(self)@.after(answer),
            final(self)@.wf(),
    {
        assert(self@.new.len() == self.new.len() && self@.old.len() == self.old.len());
        assert(self@.added.len() == self.added.len());
        match (self.phase, answer) {
            (SyncPhase::AskNew(i), HotkeyAnswer::Registered(known)) => {
                if known {
                    self.go_on_with_new(i + 1);
                } else {
                    self.phase = SyncPhase::Register(i);
                }
            },
            (SyncPhase::Register(i), HotkeyAnswer::Done(Ok(_))) => {
                let ghost before = self.added@;
                let shortcut = self.new[i].clone();
                self.added.push(shortcut);
                assert(views(self.added@) =~= views(before).push(shortcut@));
                self.go_on_with_new(i + 1);
            },
            (SyncPhase::Register(i), HotkeyAnswer::Done(Err(error))) => {
                if contains_text(&self.old, self.new[i].as_str()) {
                    let ghost before = self.warnings@;
                    let text = concat2("global save hotkey still unavailable: ", error.as_str());
                    self.warnings.push(text);
                    assert(views(self.warnings@) =~= views(before).push(text@));
                    self.go_on_with_new(i + 1);
                } else {
                    self.error = Some(concat2("register hotkey: ", error.as_str()));
                    self.go_on_withdrawing(0);
                }
            },
            (SyncPhase::AskOld(i), HotkeyAnswer::Registered(known)) => {
                if known {
                    self.phase = SyncPhase::Unregister(i);
                } else {
                    self.go_on_with_old(i + 1);
                }
            },
            (SyncPhase::Unregister(i), HotkeyAnswer::Done(Ok(_))) => {
                let ghost before = self.removed@;
                let shortcut = self.old[i].clone();
                self.removed.push(shortcut);
                assert(views(self.removed@) =~= views(before).push(shortcut@));
                self.go_on_with_old(i + 1);
            },
            (SyncPhase::Unregister(_), HotkeyAnswer::Done(Err(error))) => {
                self.error = Some(concat2("replace hotkey: ", error.as_str()));
                self.replacing = true;
                let left: usize = self.removed.len();
                self.go_on_restoring(left);
            },
            (SyncPhase::Restore(i), HotkeyAnswer::Done(Ok(_))) => {
                self.go_on_restoring(i);
            },
            (SyncPhase::Restore(i), HotkeyAnswer::Done(Err(error))) => {
                let shortcut = self.removed[i].clone();
                self.record_undone("re-register ", &shortcut, &error);
                assert(self@.removed.len() == old(self)@.removed.len());
                self.go_on_restoring(i);
            },
            (SyncPhase::Withdraw(i), HotkeyAnswer::Done(Ok(_))) => {
                self.go_on_withdrawing(i + 1);
            },
            (SyncPhase::Withdraw(i), HotkeyAnswer::Done(Err(error))) => {
                if self.replacing {
                    let shortcut = self.added[i].clone();
                    self.record_undone("unregister ", &shortcut, &error);
                    assert(self@.added.len() == old(self)@.added.len());
                }
                self.go_on_withdrawing(i + 1);
            },
            _ => {},
        }
    }

    /// The warnings, or the error, once nothing is due.
    pub fn finish(self) -> (res: Result<Vec<String>, String>)
        ensures
            match res {
                Ok(warnings) => self@.result() == Ok::<Seq<Seq<char>>, Seq<char>>(
                    views(warnings@),
                ),
                Err(error) => self@.result() == Err::<Seq<Seq<char>>, Seq<char>>(error@),
            },
    {
        match self.error {
            None => Ok(self.warnings),
            Some(error) => if self.undone.len() == 0 {
                Err(error)
            } else {
                let list = join(&self.undone, ", ");
                Err(concat3(error.as_str(), "; rollback incomplete: ", list.as_str()))
            },
        }
    }
}

// ---------------------------------------------------------------------------
// What holds of the registrations
// ---------------------------------------------------------------------------

/// Whether the system answered truthfully: it says whether a shortcut is registered, and a
/// call that succeeds registers or unregisters exactly that shortcut, one that fails changes
/// nothing.
pub open spec fn system_step(
    sync: SyncModel,
    answer: HotkeyAnswer,
    registered: Set<Seq<char>>,
    next: Set<Seq<char>>,
) -> bool {
    match answer {
        HotkeyAnswer::Registered(known) => known == registered.contains(sync.subject()) && next
            == registered,
        HotkeyAnswer::Done(Ok(_)) => next == if sync.registers() {
            registered.insert(sync.subject())
        } else {
            registered.remove(sync.subject())
        },
        HotkeyAnswer::Done(Err(_)) => next == registered,
    }
}

/// The shortcuts that were configured before and could not be registered again, in order,
/// one for each warning.
pub open spec fn retried_after(
    sync: SyncModel,
    answer: HotkeyAnswer,
    retried: Seq<Seq<char>>,
) -> Seq<Seq<char>> {
    if sync.phase is Register && answer is Done && answer->Done_0 is Err && sync.old.contains(
        sync.subject(),
    ) {
        retried.push(sync.subject())
    } else {
        retried
    }
}

/// Whether everything that was undone so far succeeded.
pub open spec fn clean_after(sync: SyncModel, answer: HotkeyAnswer, clean: bool) -> bool {
    clean && !((sync.phase is Restore || sync.phase is Withdraw) && answer is Done
        && answer->Done_0 is Err)
}

/// Whether `x` stands in a list from one index up to another.
pub open spec fn stands_in(list: Seq<Seq<char>>, from: int, to: int, x: Seq<char>) -> bool {
    exists|j: int| from <= j < to && #[trigger] list[j] == x
}

/// The first `upto` new shortcuts are registered, or could not be had again.
pub open spec fn new_covered(
    sync: SyncModel,
    retried: Seq<Seq<char>>,
    now: Set<Seq<char>>,
    upto: int,
) -> bool {
    forall|k: int|
        0 <= k < upto && k < sync.new.len() ==> now.contains(#[trigger] sync.new[k])
            || retried.contains(sync.new[k])
}

/// The first `upto` old shortcuts are wanted still, or not registered any more.
pub open spec fn old_dropped(sync: SyncModel, now: Set<Seq<char>>, upto: int) -> bool {
    forall|k: int|
        0 <= k < upto && k < sync.old.len() ==> sync.new.contains(#[trigger] sync.old[k])
            || !now.contains(sync.old[k])
}

/// Registered is what was before, with what was added and without what was removed, counting
/// of each list only a part.
pub open spec fn differs_by(
    sync: SyncModel,
    before: Set<Seq<char>>,
    now: Set<Seq<char>>,
    added_from: int,
    removed_to: int,
) -> bool {
    forall|x: Seq<char>| #[trigger]
        now.contains(x) == ((before.contains(x) || stands_in(
            sync.added,
            added_from,
            sync.added.len() as int,
            x,
        )) && !stands_in(sync.removed, 0, removed_to, x))
}

/// What holds throughout a change of the registrations that started from `before`.
pub open spec fn on_course(
    sync: SyncModel,
    retried: Seq<Seq<char>>,
    clean: bool,
    before: Set<Seq<char>>,
    now: Set<Seq<char>>,
) -> bool {
    let all_added = 0int;
    let all_removed = sync.removed.len() as int;
    &&& sync.wf()
    &&& sync.old.len() <= usize::MAX
    &&& sync.new.len() <= usize::MAX
    &&& sync.added.no_duplicates()
    &&& sync.removed.no_duplicates()
    &&& sync.added.len() <= sync.new.len()
    &&& sync.removed.len() <= sync.old.len()
    &&& forall|j: int|
        0 <= j < sync.added.len() ==> sync.new.contains(#[trigger] sync.added[j])
            && !before.contains(sync.added[j])
    &&& forall|j: int|
        0 <= j < sync.removed.len() ==> sync.old.contains(#[trigger] sync.removed[j])
            && before.contains(sync.removed[j]) && !sync.new.contains(sync.removed[j])
    &&& retried.len() == sync.warnings.len()
    &&& forall|j: int|
        0 <= j < retried.len() ==> sync.old.contains(#[trigger] retried[j]) && sync.new.contains(
            retried[j],
        )
    &&& sync.error is None ==> clean && sync.undone.len() == 0 && !sync.replacing
    &&& sync.error is Some && sync.replacing ==> clean == (sync.undone.len() == 0)
    &&& sync.error is Some && !sync.replacing ==> sync.undone.len() == 0 && sync.removed.len() == 0
    &&& match sync.phase {
        SyncPhase::AskNew(i) => {
            &&& sync.error is None
            &&& sync.removed.len() == 0
            &&& sync.added.len() <= i
            &&& differs_by(sync, before, now, all_added, all_removed)
            &&& new_covered(sync, retried, now, i as int)
        },
        SyncPhase::Register(i) => {
            &&& sync.error is None
            &&& sync.removed.len() == 0
            &&& sync.added.len() <= i
            &&& differs_by(sync, before, now, all_added, all_removed)
            &&& new_covered(sync, retried, now, i as int)
            &&& !now.contains(sync.new[i as int])
        },
        SyncPhase::AskOld(i) => {
            &&& sync.error is None
            &&& sync.removed.len() <= i
            &&& differs_by(sync, before, now, all_added, all_removed)
            &&& new_covered(sync, retried, now, sync.new.len() as int)
            &&& old_dropped(sync, now, i as int)
            &&& !sync.new.contains(sync.old[i as int])
        },
        SyncPhase::Unregister(i) => {
            &&& sync.error is None
            &&& sync.removed.len() <= i
            &&& differs_by(sync, before, now, all_added, all_removed)
            &&& new_covered(sync, retried, now, sync.new.len() as int)
            &&& old_dropped(sync, now, i as int)
            &&& !sync.new.contains(sync.old[i as int])
            &&& now.contains(sync.old[i as int])
        },
        SyncPhase::Restore(i) => {
            &&& sync.error is Some
            &&& sync.replacing
            &&& clean ==> differs_by(sync, before, now, all_added, i + 1)
        },
        SyncPhase::Withdraw(i) => {
            &&& sync.error is Some
            &&& clean ==> differs_by(sync, before, now, i as int, 0)
        },
        SyncPhase::Finished => if sync.error is None {
            &&& differs_by(sync, before, now, all_added, all_removed)
            &&& new_covered(sync, retried, now, sync.new.len() as int)
            &&& old_dropped(sync, now, sync.old.len() as int)
        } else {
            clean ==> now == before
        },
    }
}

/// Where the old shortcuts are gone on with, everything before is wanted still.
proof fn lemma_next_dropped(old: Seq<Seq<char>>, new: Seq<Seq<char>>, i: int)
    requires
        0 <= i <= old.len(),
    ensures
        i <= next_dropped(old, new, i) <= old.len(),
        forall|k: int| i <= k < next_dropped(old, new, i) ==> new.contains(#[trigger] old[k]),
        next_dropped(old, new, i) < old.len() ==> !new.contains(old[next_dropped(old, new, i)]),
    decreases old.len() - i,
{
    if i < old.len() && new.contains(old[i]) {
        lemma_next_dropped(old, new, i + 1);
    }
}

/// At the start of a change everything is as it was.
pub proof fn law_sync_begins_on_course(
    old: Seq<Seq<char>>,
    new: Seq<Seq<char>>,
    before: Set<Seq<char>>,
)
    requires
        old.len() <= usize::MAX,
        new.len() <= usize::MAX,
    ensures
        on_course(SyncModel::begun(old, new), Seq::empty(), true, before, before),
{
    lemma_next_dropped(old, new, 0);
}

/// Whatever the system answers, a change of the registrations stays on course.
pub proof fn law_sync_stays_on_course(
    sync: SyncModel,
    answer: HotkeyAnswer,
    retried: Seq<Seq<char>>,
    clean: bool,
    before: Set<Seq<char>>,
    now: Set<Seq<char>>,
    next: Set<Seq<char>>,
)
    requires
        on_course(sync, retried, clean, before, now),
        sync.takes(answer),
        system_step(sync, answer, now, next),
    ensures
        on_course(
            sync.after(answer),
            retried_after(sync, answer, retried),
            clean_after(sync, answer, clean),
            before,
            next,
        ),
{
    let after = sync.after(answer);
    let retried2 = retried_after(sync, answer, retried);
    match (sync.phase, answer) {
        (SyncPhase::AskNew(i), HotkeyAnswer::Registered(known)) => {
            lemma_next_dropped(sync.old, sync.new, 0);
        },
        (SyncPhase::Register(i), HotkeyAnswer::Done(Ok(_))) => {
            lemma_next_dropped(sync.old, sync.new, 0);
            let x = sync.new[i as int];
            assert(after.added == sync.added.push(x));
            assert(!sync.added.contains(x)) by {
                assert(!now.contains(x));
                if sync.added.contains(x) {
                    let j = choose|j: int| 0 <= j < sync.added.len() && sync.added[j] == x;
                    assert(stands_in(sync.added, 0, sync.added.len() as int, x));
                }
            }
            assert(differs_by(after, before, next, 0, after.removed.len() as int)) by {
                assert forall|y: Seq<char>| #[trigger] next.contains(y) == ((before.contains(y)
                    || stands_in(after.added, 0, after.added.len() as int, y)) && !stands_in(
                    after.removed,
                    0,
                    after.removed.len() as int,
                    y,
                )) by {
                    assert(now.contains(y) == before.contains(y) || stands_in(
                        sync.added,
                        0,
                        sync.added.len() as int,
                        y,
                    ));
                    if stands_in(sync.added, 0, sync.added.len() as int, y) {
                        let j = choose|j: int|
                            0 <= j < sync.added.len() && #[trigger] sync.added[j] == y;
                        assert(after.added[j] == y);
                    }
                    if stands_in(after.added, 0, after.added.len() as int, y) && y != x {
                        let j = choose|j: int|
                            0 <= j < after.added.len() && #[trigger] after.added[j] == y;
                        assert(sync.added[j] == y);
                    }
                    assert(after.added[sync.added.len() as int] == x);
                }
            }
            assert forall|k: int| 0 <= k < i + 1 && k < sync.new.len() implies next.contains(
                #[trigger] sync.new[k],
            ) || retried2.contains(sync.new[k]) by {
                if k < i {
                    assert(now.contains(sync.new[k]) || retried.contains(sync.new[k]));
                }
            }
        },
        (SyncPhase::Register(i), HotkeyAnswer::Done(Err(error))) => {
            lemma_next_dropped(sync.old, sync.new, 0);
            let x = sync.new[i as int];
            if sync.old.contains(x) {
                assert(retried2 == retried.push(x));
                assert(retried2[retried.len() as int] == x);
                assert forall|k: int| 0 <= k < i + 1 && k < sync.new.len() implies next.contains(
                    #[trigger] sync.new[k],
                ) || retried2.contains(sync.new[k]) by {
                    if k < i {
                        assert(now.contains(sync.new[k]) || retried.contains(sync.new[k]));
                        if retried.contains(sync.new[k]) {
                            let j = choose|j: int|
                                0 <= j < retried.len() && retried[j] == sync.new[k];
                            assert(retried2[j] == sync.new[k]);
                        }
                    }
                }
            } else {
                assert(now =~= before || sync.added.len() > 0) by {
                    if sync.added.len() == 0 {
                        assert forall|y: Seq<char>| now.contains(y) == before.contains(y) by {}
                    }
                }
            }
        },
        (SyncPhase::AskOld(i), HotkeyAnswer::Registered(known)) => {
            lemma_next_dropped(sync.old, sync.new, i + 1);
        },
        (SyncPhase::Unregister(i), HotkeyAnswer::Done(Ok(_))) => {
            lemma_next_dropped(sync.old, sync.new, i + 1);
            let x = sync.old[i as int];
            assert(after.removed == sync.removed.push(x));
            assert(before.contains(x) && !sync.removed.contains(x)) by {
                assert(now.contains(x));
                if sync.removed.contains(x) {
                    let j = choose|j: int| 0 <= j < sync.removed.len() && sync.removed[j] == x;
                    assert(stands_in(sync.removed, 0, sync.removed.len() as int, x));
                }
                if stands_in(sync.added, 0, sync.added.len() as int, x) {
                    let j = choose|j: int|
                        0 <= j < sync.added.len() && #[trigger] sync.added[j] == x;
                    assert(sync.new.contains(sync.added[j]));
                }
            }
            assert(differs_by(after, before, next, 0, after.removed.len() as int)) by {
                assert forall|y: Seq<char>| #[trigger] next.contains(y) == ((before.contains(y)
                    || stands_in(after.added, 0, after.added.len() as int, y)) && !stands_in(
                    after.removed,
                    0,
                    after.removed.len() as int,
                    y,
                )) by {
                    assert(now.contains(y) == ((before.contains(y) || stands_in(
                        sync.added,
                        0,
                        sync.added.len() as int,
                        y,
                    )) && !stands_in(sync.removed, 0, sync.removed.len() as int, y)));
                    if stands_in(sync.removed, 0, sync.removed.len() as int, y) {
                        let j = choose|j: int|
                            0 <= j < sync.removed.len() && #[trigger] sync.removed[j] == y;
                        assert(after.removed[j] == y);
                    }
                    if stands_in(after.removed, 0, after.removed.len() as int, y) && y != x {
                        let j = choose|j: int|
                            0 <= j < after.removed.len() && #[trigger] after.removed[j] == y;
                        assert(sync.removed[j] == y);
                    }
                    assert(after.removed[sync.removed.len() as int] == x);
                }
            }
            assert forall|k: int| 0 <= k < sync.new.len() implies next.contains(
                #[trigger] sync.new[k],
            ) || retried2.contains(sync.new[k]) by {
                assert(now.contains(sync.new[k]) || retried.contains(sync.new[k]));
                assert(sync.new[k] != x);
            }
        },
        (SyncPhase::Unregister(i), HotkeyAnswer::Done(Err(error))) => {
            if sync.removed.len() == 0 {
                if sync.added.len() == 0 {
                    assert(now =~= before) by {
                        assert forall|y: Seq<char>| now.contains(y) == before.contains(y) by {}
                    }
                }
            }
        },
        (SyncPhase::Restore(i), HotkeyAnswer::Done(Ok(_))) => {
            if clean {
                let x = sync.removed[i as int];
                assert(differs_by(after, before, next, 0, i as int)) by {
                    assert forall|y: Seq<char>| #[trigger] next.contains(y) == ((before.contains(y)
                        || stands_in(after.added, 0, after.added.len() as int, y)) && !stands_in(
                        after.removed,
                        0,
                        i as int,
                        y,
                    )) by {
                        assert(now.contains(y) == ((before.contains(y) || stands_in(
                            sync.added,
                            0,
                            sync.added.len() as int,
                            y,
                        )) && !stands_in(sync.removed, 0, i + 1, y)));
                        if stands_in(sync.removed, 0, i + 1, y) && y != x {
                            let j = choose|j: int|
                                0 <= j < i + 1 && #[trigger] sync.removed[j] == y;
                            assert(stands_in(sync.removed, 0, i as int, y));
                        }
                        if stands_in(sync.removed, 0, i as int, y) {
                            let j = choose|j: int|
                                0 <= j < i && #[trigger] sync.removed[j] == y;
                            assert(stands_in(sync.removed, 0, i + 1, y));
                            assert(y != x);
                        }
                    }
                }
                if i == 0 && sync.added.len() == 0 {
                    assert(next =~= before) by {
                        assert forall|y: Seq<char>| next.contains(y) == before.contains(y) by {}
                    }
                }
            }
        },
        (SyncPhase::Restore(i), HotkeyAnswer::Done(Err(error))) => {},
        (SyncPhase::Withdraw(i), HotkeyAnswer::Done(Ok(_))) => {
            if clean {
                let x = sync.added[i as int];
                assert(differs_by(after, before, next, i + 1, 0)) by {
                    assert forall|y: Seq<char>| #[trigger] next.contains(y) == ((before.contains(y)
                        || stands_in(after.added, i + 1, after.added.len() as int, y))
                        && !stands_in(after.removed, 0, 0, y)) by {
                        assert(now.contains(y) == (before.contains(y) || stands_in(
                            sync.added,
                            i as int,
                            sync.added.len() as int,
                            y,
                        )));
                        if stands_in(sync.added, i as int, sync.added.len() as int, y) && y != x {
                            let j = choose|j: int|
                                i <= j < sync.added.len() && #[trigger] sync.added[j] == y;
                            assert(stands_in(sync.added, i + 1, sync.added.len() as int, y));
                        }
                        if stands_in(sync.added, i + 1, sync.added.len() as int, y) {
                            let j = choose|j: int|
                                i + 1 <= j < sync.added.len() && #[trigger] sync.added[j] == y;
                            assert(stands_in(sync.added, i as int, sync.added.len() as int, y));
                            assert(y != x);
                        }
                    }
                }
                if i + 1 >= sync.added.len() {
                    assert(next =~= before) by {
                        assert forall|y: Seq<char>| next.contains(y) == before.contains(y) by {
                            assert(!stands_in(sync.added, i + 1, sync.added.len() as int, y));
                        }
                    }
                }
            }
        },
        _ => {},
    }
}

/// Where the registrations were brought in line without an error, nothing is registered any
/// more that was dropped; each new shortcut is registered, or was configured before and could
/// not be had, with one warning each; those that were registered and are wanted still were
/// left alone; and nothing else changed.
pub proof fn law_success_registers_the_new_shortcuts(
    sync: SyncModel,
    retried: Seq<Seq<char>>,
    clean: bool,
    before: Set<Seq<char>>,
    now: Set<Seq<char>>,
)
    requires
        on_course(sync, retried, clean, before, now),
        sync.phase == SyncPhase::Finished,
        sync.result() is Ok,
    ensures
        sync.result() == Ok::<Seq<Seq<char>>, Seq<char>>(sync.warnings),
        retried.len() == sync.warnings.len(),
        forall|x: Seq<char>| #[trigger] retried.contains(x) ==> sync.old.contains(x),
        forall|x: Seq<char>|
            sync.old.contains(x) && !sync.new.contains(x) ==> !#[trigger] now.contains(x),
        forall|x: Seq<char>|
            sync.new.contains(x) && !#[trigger] now.contains(x) ==> retried.contains(x),
        forall|x: Seq<char>|
            sync.new.contains(x) && before.contains(x) ==> #[trigger] now.contains(x),
        forall|x: Seq<char>|
            !sync.old.contains(x) && !sync.new.contains(x) ==> #[trigger] now.contains(x)
                == before.contains(x),
{
    assert forall|x: Seq<char>| #[trigger] retried.contains(x) implies sync.old.contains(x) by {
        let j = choose|j: int| 0 <= j < retried.len() && retried[j] == x;
        assert(sync.old.contains(retried[j]));
    }
    assert forall|x: Seq<char>|
        sync.old.contains(x) && !sync.new.contains(x) implies !#[trigger] now.contains(x) by {
        let k = choose|k: int| 0 <= k < sync.old.len() && sync.old[k] == x;
        assert(sync.new.contains(sync.old[k]) || !now.contains(sync.old[k]));
    }
    assert forall|x: Seq<char>|
        sync.new.contains(x) && !#[trigger] now.contains(x) implies retried.contains(x) by {
        let k = choose|k: int| 0 <= k < sync.new.len() && sync.new[k] == x;
        assert(now.contains(sync.new[k]) || retried.contains(sync.new[k]));
    }
    assert forall|x: Seq<char>| sync.new.contains(x) && before.contains(x) implies
        #[trigger] now.contains(x) by {
        if stands_in(sync.removed, 0, sync.removed.len() as int, x) {
            let j = choose|j: int|
                0 <= j < sync.removed.len() && #[trigger] sync.removed[j] == x;
            assert(!sync.new.contains(sync.removed[j]));
        }
    }
    assert forall|x: Seq<char>|
        !sync.old.contains(x) && !sync.new.contains(x) implies #[trigger] now.contains(x)
        == before.contains(x) by {
        if stands_in(sync.removed, 0, sync.removed.len() as int, x) {
            let j = choose|j: int|
                0 <= j < sync.removed.len() && #[trigger] sync.removed[j] == x;
            assert(sync.old.contains(sync.removed[j]));
        }
        if stands_in(sync.added, 0, sync.added.len() as int, x) {
            let j = choose|j: int| 0 <= j < sync.added.len() && #[trigger] sync.added[j] == x;
            assert(sync.new.contains(sync.added[j]));
        }
    }
}

/// After an error, where everything could be undone, the registrations are what they were
/// before. A failed removal says so: its error then speaks of no rollback.
pub proof fn law_failure_restores_the_registrations(
    sync: SyncModel,
    retried: Seq<Seq<char>>,
    clean: bool,
    before: Set<Seq<char>>,
    now: Set<Seq<char>>,
)
    requires
        on_course(sync, retried, clean, before, now),
        sync.phase == SyncPhase::Finished,
        sync.result() is Err,
    ensures
        clean ==> now == before,
        sync.replacing ==> (clean <==> sync.result() == Err::<Seq<Seq<char>>, Seq<char>>(
            sync.error->0,
        )),
{
    if sync.replacing && !clean {
        reveal_strlit("; rollback incomplete: ");
        let message = sync.error->0 + "; rollback incomplete: "@ + joined(sync.undone, ", "@);
        assert(message.len() > sync.error->0.len());
    }
}

/// Only a new shortcut that is not registered is registered, and only an old one that is
/// registered and not wanted any more is unregistered; the rest undoes just that.
pub proof fn law_calls_are_needed(
    sync: SyncModel,
    retried: Seq<Seq<char>>,
    clean: bool,
    before: Set<Seq<char>>,
    now: Set<Seq<char>>,
)
    requires
        on_course(sync, retried, clean, before, now),
    ensures
        sync.phase is Register ==> sync.new.contains(sync.subject()) && !now.contains(
            sync.subject(),
        ),
        sync.phase is Unregister ==> sync.old.contains(sync.subject()) && !sync.new.contains(
            sync.subject(),
        ) && now.contains(sync.subject()),
        sync.phase is Restore ==> sync.removed.contains(sync.subject()),
        sync.phase is Withdraw ==> sync.added.contains(sync.subject()),
{
}

/// Exactly the shortcuts that were read are registered, in their order; what stands for none is
/// left out. `kept` are where they stand.
pub proof fn law_read_shortcuts_are_registered(parsed: Seq<Result<Option<String>, String>>) -> (kept:
    Seq<int>)
    ensures
        kept.len() == registered_ones(parsed).len(),
        forall|k: int|
            0 <= k < kept.len() ==> 0 <= (#[trigger] kept[k]) < parsed.len() && parsed[kept[k]] is Ok
                && parsed[kept[k]]->Ok_0 is Some && registered_ones(parsed)[k]
                == parsed[kept[k]]->Ok_0->0@,
        forall|k: int, l: int|
            0 <= k < l < kept.len() ==> #[trigger] kept[k] < #[trigger] kept[l],
        forall|i: int|
            0 <= i < parsed.len() && (#[trigger] parsed[i]) is Ok && parsed[i]->Ok_0 is Some
                ==> kept.contains(i),
    decreases parsed.len(),
{
    if parsed.len() == 0 {
        Seq::empty()
    } else {
        let at = parsed.len() - 1;
        let before = law_read_shortcuts_are_registered(parsed.drop_last());
        assert forall|k: int| 0 <= k < before.len() implies parsed[#[trigger] before[k]]
            == parsed.drop_last()[before[k]] by {}
        let kept = if parsed.last() is Ok && parsed.last()->Ok_0 is Some {
            before.push(at)
        } else {
            before
        };
        assert forall|i: int|
            0 <= i < parsed.len() && (#[trigger] parsed[i]) is Ok
                && parsed[i]->Ok_0 is Some implies kept.contains(i) by {
            if i < at {
                assert(parsed.drop_last()[i] == parsed[i]);
                let k = choose|k: int| 0 <= k < before.len() && before[k] == i;
                assert(kept[k] == i);
            } else {
                assert(kept[before.len() as int] == at);
            }
        }
        kept
    }
}

/// What is told of a sync: a shortcut that was in use and is still refused is a warning, one that
/// is new and refused, or one that could not be given up, the error; what could not be taken back
/// is told behind it.
pub proof fn law_sync_is_told(sync: SyncModel, i: usize, error: String)
    requires
        sync.wf(),
    ensures
        sync.phase == SyncPhase::Register(i) && sync.old.contains(sync.new[i as int]) ==> {
            let after = sync.after(HotkeyAnswer::Done(Err(error)));
            &&& after.warnings == sync.warnings.push(
                "global save hotkey still unavailable: "@ + error@,
            )
            &&& after.error == sync.error
        },
        sync.phase == SyncPhase::Register(i) && !sync.old.contains(sync.new[i as int])
            ==> sync.after(HotkeyAnswer::Done(Err(error))).error == Some(
            "register hotkey: "@ + error@,
        ),
        sync.phase == SyncPhase::Unregister(i) ==> sync.after(
            HotkeyAnswer::Done(Err(error)),
        ).error == Some("replace hotkey: "@ + error@),
        sync.phase == SyncPhase::Restore(i) ==> sync.after(HotkeyAnswer::Done(Err(error))).undone
            == sync.undone.push("re-register "@ + sync.removed[i as int] + ": "@ + error@),
        sync.phase == SyncPhase::Withdraw(i) && sync.replacing ==> sync.after(
            HotkeyAnswer::Done(Err(error)),
        ).undone == sync.undone.push("unregister "@ + sync.added[i as int] + ": "@ + error@),
        sync.error is None ==> sync.result() == Ok::<Seq<Seq<char>>, Seq<char>>(sync.warnings),
        sync.error is Some && sync.undone.len() == 0 ==> sync.result() == Err::<
            Seq<Seq<char>>,
            Seq<char>,
        >(sync.error->0),
        sync.error is Some && sync.undone.len() > 0 ==> sync.result() == Err::<
            Seq<Seq<char>>,
            Seq<char>,
        >(sync.error->0 + "; rollback incomplete: "@ + joined(sync.undone, ", "@)),
{
}

/// The call that is due is about the shortcut that its phase stands at.
pub proof fn law_calls_are_about_their_shortcut(sync: SyncModel, i: usize)
    ensures
        sync.phase == SyncPhase::AskNew(i) || sync.phase == SyncPhase::Register(i) ==> sync.subject()
            == sync.new[i as int],
        sync.phase == SyncPhase::AskOld(i) || sync.phase == SyncPhase::Unregister(i)
            ==> sync.subject() == sync.old[i as int],
        sync.phase == SyncPhase::Restore(i) ==> sync.subject() == sync.removed[i as int],
        sync.phase == SyncPhase::Withdraw(i) ==> sync.subject() == sync.added[i as int],
        sync.registers() <==> sync.phase is Register || sync.phase is Restore,
        sync.unregisters() <==> sync.phase is Unregister || sync.phase is Withdraw,
{
}

/// The next shortcut to give up is the first from a place on that is not among the new ones.
pub proof fn law_next_shortcut_to_give_up(
    old_list: Seq<Seq<char>>,
    new_list: Seq<Seq<char>>,
    i: int,
)
    requires
        0 <= i <= old_list.len(),
    ensures
        i <= next_dropped(old_list, new_list, i) <= old_list.len(),
        forall|k: int|
            i <= k < next_dropped(old_list, new_list, i) ==> new_list.contains(
                #[trigger] old_list[k],
            ),
        next_dropped(old_list, new_list, i) < old_list.len() ==> !new_list.contains(
            old_list[next_dropped(old_list, new_list, i)],
        ),
    decreases old_list.len() - i,
{
    if i < old_list.len() && new_list.contains(old_list[i]) {
        law_next_shortcut_to_give_up(old_list, new_list, i + 1);
    }
}

} // verus!
