//! The watcher core: classifying and folding in the events one bus delivers,
//! and building the outbound notification calls they give rise to.
//!
//! The front-end that owns the connection drains messages, turns them into
//! plain values, and calls in here; every decision — which units are
//! interesting, whether an observation is fresh, who gets notified, and with
//! exactly which message — is made and verified in this module.

use vstd::prelude::*;
use vstd::string::StrSliceExecFns;

use crate::error::Error;
use crate::kvlist::{kv_get, kv_map, kv_position, kv_unique_keys, lemma_kv_map_contains,
    lemma_kv_map_remove};
use crate::props::{PropValue, PropView, UnitProps};
use crate::settings::{expression_matches, BusType, NotifierView, Rule, Settings};
use crate::strutil::{chars_to_string, str_eq};
use crate::timestamp::{get_monotonic_timestamp, monotonic_timestamp_key, MonotonicTimestamp};
use crate::unit::{decode_active_state, encode_active_state, ActiveState, UnitStateMachine};

verus! {

/// The bus name under which the service manager is reachable.
pub const BUS_NAME_FOR_SYSTEMD: &'static str = "org.freedesktop.systemd1";

/// The object path of the service manager itself.
pub const PATH_FOR_SYSTEMD: &'static str = "/org/freedesktop/systemd1";

/// The per-unit interface whose `PropertiesChanged` signals the watcher
/// consumes.
pub const INTERFACE_FOR_SYSTEMD_UNIT: &'static str = "org.freedesktop.systemd1.Unit";

/// The interface of the outbound notification call.
pub const INTERFACE_FOR_KILLJOY_NOTIFIER: &'static str = "name.jerebear.KilljoyNotifier1";

/// The member of the outbound notification call.
pub const MEMBER_FOR_NOTIFY: &'static str = "Notify";

/// The object path derived from a bus name: every `.` rewritten to `/`, and
/// a leading `/` prefixed.
pub open spec fn path_of_bus_name(bus_name: Seq<char>) -> Seq<char> {
    seq!['/'] + bus_name.map_values(
        |c: char|
            if c == '.' {
                '/'
            } else {
                c
            },
    )
}

/// The derived object path is one character longer than the bus name, starts
/// with `/`, and agrees with the bus name character by character except that
/// every `.` becomes `/`.
pub proof fn lemma_path_derivation(bus_name: Seq<char>)
    ensures
        path_of_bus_name(bus_name).len() == bus_name.len() + 1,
        path_of_bus_name(bus_name)[0] == '/',
        forall|i: int|
            0 <= i < bus_name.len() ==> path_of_bus_name(bus_name)[i + 1] == (if bus_name[i] == '.' {
                '/'
            } else {
                bus_name[i]
            }),
{
}

/// Given a bus name `foo.bar.Biz1`, make the object path `/foo/bar/Biz1`.
pub fn make_path_like_bus_name(bus_name: &str) -> (r: String)
    ensures
        r@ == path_of_bus_name(bus_name@),
{
    let len = bus_name.unicode_len();
    let mut chars: Vec<char> = Vec::new();
    chars.push('/');
    let mut i: usize = 0;
    while i < len
        invariant
            len == bus_name@.len(),
            i <= len,
            chars@ =~= path_of_bus_name(bus_name@.take(i as int)),
        decreases len - i,
    {
        let c = bus_name.get_char(i);
        if c == '.' {
            chars.push('/');
        } else {
            chars.push(c);
        }
        proof {
            assert(chars@ =~= path_of_bus_name(bus_name@.take(i + 1)));
        }
        i = i + 1;
    }
    proof {
        assert(bus_name@.take(len as int) =~= bus_name@);
    }
    chars_to_string(&chars)
}

/// Whether a rule's expression matches the given unit name.
pub open spec fn rule_matches_name(rule: Rule, unit_name: Seq<char>) -> bool {
    expression_matches(rule.expression@, unit_name)
}

/// Whether a rule matches both the given unit name and the given state.
pub open spec fn rule_applies(rule: Rule, unit_name: Seq<char>, state: ActiveState) -> bool {
    rule_matches_name(rule, unit_name) && rule.active_states@.contains(state)
}

/// The positions, in configuration order, of the rules whose expression
/// matches the given unit name.
pub fn get_rules_matching_name(rules: &Vec<Rule>, unit_name: &str) -> (r: Vec<usize>)
    ensures
        forall|k: int|
            0 <= k < r@.len() ==> (#[trigger] r@[k]) < rules@.len() && rule_matches_name(
                rules@[r@[k] as int],
                unit_name@,
            ),
        forall|k: int, l: int| 0 <= k < l < r@.len() ==> r@[k] < r@[l],
        forall|i: int|
            0 <= i < rules@.len() && rule_matches_name(#[trigger] rules@[i], unit_name@)
                ==> exists|k: int| 0 <= k < r@.len() && (#[trigger] r@[k]) as int == i,
{
    let mut r: Vec<usize> = Vec::new();
    let mut i: usize = 0;
    while i < rules.len()
        invariant
            i <= rules@.len(),
            forall|k: int|
                0 <= k < r@.len() ==> (#[trigger] r@[k]) < i && rule_matches_name(
                    rules@[r@[k] as int],
                    unit_name@,
                ),
            forall|k: int, l: int| 0 <= k < l < r@.len() ==> r@[k] < r@[l],
            forall|j: int|
                0 <= j < i && rule_matches_name(#[trigger] rules@[j], unit_name@) ==> exists|k: int|
                    0 <= k < r@.len() && (#[trigger] r@[k]) as int == j,
        decreases rules@.len() - i,
    {
        if rules[i].matches_name(unit_name) {
            let ghost prior = r@;
            r.push(i);
            proof {
                assert forall|j: int|
                    0 <= j < i + 1 && rule_matches_name(
                        #[trigger] rules@[j],
                        unit_name@,
                    ) implies exists|k: int| 0 <= k < r@.len() && (#[trigger] r@[k]) as int == j by {
                    if j == i {
                        assert(r@[r@.len() - 1] as int == j);
                    } else {
                        let k = choose|k: int|
                            0 <= k < prior.len() && (#[trigger] prior[k]) as int == j;
                        assert(r@[k] as int == j);
                    }
                }
            }
        }
        i = i + 1;
    }
    r
}

/// The positions, in configuration order, of the rules whose interesting
/// states include the given state.
pub fn get_rules_matching_active_state(rules: &Vec<Rule>, target: ActiveState) -> (r: Vec<usize>)
    ensures
        forall|k: int|
            0 <= k < r@.len() ==> (#[trigger] r@[k]) < rules@.len() && rules@[r@[k] as int]
                .active_states@.contains(target),
        forall|k: int, l: int| 0 <= k < l < r@.len() ==> r@[k] < r@[l],
        forall|i: int|
            0 <= i < rules@.len() && (#[trigger] rules@[i]).active_states@.contains(target)
                ==> exists|k: int| 0 <= k < r@.len() && (#[trigger] r@[k]) as int == i,
{
    let mut r: Vec<usize> = Vec::new();
    let mut i: usize = 0;
    while i < rules.len()
        invariant
            i <= rules@.len(),
            forall|k: int|
                0 <= k < r@.len() ==> (#[trigger] r@[k]) < i && rules@[r@[k] as int]
                    .active_states@.contains(target),
            forall|k: int, l: int| 0 <= k < l < r@.len() ==> r@[k] < r@[l],
            forall|j: int|
                0 <= j < i && (#[trigger] rules@[j]).active_states@.contains(target) ==> exists|
                    k: int,
                |
                    0 <= k < r@.len() && (#[trigger] r@[k]) as int == j,
        decreases rules@.len() - i,
    {
        if rules[i].matches_active_state(target) {
            let ghost prior = r@;
            r.push(i);
            proof {
                assert forall|j: int|
                    0 <= j < i + 1 && (#[trigger] rules@[j]).active_states@.contains(
                        target,
                    ) implies exists|k: int| 0 <= k < r@.len() && (#[trigger] r@[k]) as int == j by {
                    if j == i {
                        assert(r@[r@.len() - 1] as int == j);
                    } else {
                        let k = choose|k: int|
                            0 <= k < prior.len() && (#[trigger] prior[k]) as int == j;
                        assert(r@[k] as int == j);
                    }
                }
            }
        }
        i = i + 1;
    }
    r
}

/// Whether at least one rule's expression matches the given unit name.
pub fn rules_match_name(rules: &Vec<Rule>, unit_name: &str) -> (r: bool)
    ensures
        r == exists|i: int| 0 <= i < rules@.len() && rule_matches_name(#[trigger] rules@[i], unit_name@),
{
    let mut i: usize = 0;
    while i < rules.len()
        invariant
            i <= rules@.len(),
            forall|j: int| 0 <= j < i ==> !rule_matches_name(#[trigger] rules@[j], unit_name@),
        decreases rules@.len() - i,
    {
        if rules[i].matches_name(unit_name) {
            return true;
        }
        i = i + 1;
    }
    false
}

/// Return the value of the `ActiveState` property.
pub fn get_active_state(unit_props: &UnitProps) -> (r: Result<ActiveState, Error>)
    ensures
        !unit_props@.contains_key("ActiveState"@) ==> r matches Err(
            Error::PropertiesLacksActiveState,
        ),
        unit_props@.contains_key("ActiveState"@) ==> match unit_props@["ActiveState"@] {
            PropView::Str(s) => match decode_active_state(s) {
                Some(st) => r == Ok::<ActiveState, Error>(st),
                None => r matches Err(Error::InvalidActiveState(bad)) && bad@ == s,
            },
            _ => r matches Err(Error::CastOrgFreedesktopSystemd1UnitActiveState),
        },
{
    match unit_props.get("ActiveState") {
        None => Err(Error::PropertiesLacksActiveState),
        Some(PropValue::Str(s)) => ActiveState::decode(s.as_str()),
        Some(_) => Err(Error::CastOrgFreedesktopSystemd1UnitActiveState),
    }
}

/// One outbound notification call, ready for a front-end to transmit: the
/// message headers and the `(timestamp, unit name, state sequence)` body.
#[derive(Debug)]
pub struct NotifyMessage {
    pub destination: String,
    pub path: String,
    pub interface: String,
    pub member: String,
    pub timestamp: u64,
    pub unit_name: String,
    pub active_states: Vec<String>,
    pub bus_type: BusType,
}

/// The state sequence a notification carries: the new state first, the
/// replaced state after it if there was one.
pub open spec fn notify_states(new_state: ActiveState, old_state: Option<ActiveState>) -> Seq<
    Seq<char>,
> {
    match old_state {
        Some(o) => seq![encode_active_state(new_state), encode_active_state(o)],
        None => seq![encode_active_state(new_state)],
    }
}

/// What one notification to the given recipient must hold, bit for bit.
pub open spec fn notify_message_ok(
    m: NotifyMessage,
    n: NotifierView,
    unit_name: Seq<char>,
    new_state: ActiveState,
    old_state: Option<ActiveState>,
    timestamp: u64,
) -> bool {
    &&& m.destination@ == n.bus_name
    &&& m.bus_type == n.bus_type
    &&& m.path@ == path_of_bus_name(n.bus_name)
    &&& m.interface@ == "name.jerebear.KilljoyNotifier1"@
    &&& m.member@ == "Notify"@
    &&& m.timestamp == timestamp
    &&& m.unit_name@ == unit_name
    &&& m.active_states.deep_view() == notify_states(new_state, old_state)
}

/// The recipient labels owed a notification, in configuration order: for each
/// rule matching the unit name and the new state, that rule's labels in
/// order.
pub open spec fn matching_labels(
    rules: Seq<Rule>,
    unit_name: Seq<char>,
    state: ActiveState,
) -> Seq<Seq<char>>
    decreases rules.len(),
{
    if rules.len() == 0 {
        Seq::empty()
    } else {
        let rest = matching_labels(rules.drop_last(), unit_name, state);
        if rule_applies(rules.last(), unit_name, state) {
            rest + rules.last().notifiers.deep_view()
        } else {
            rest
        }
    }
}

/// The labels owed by the first `i` rules are a pointwise prefix of the
/// labels owed by all of them.
pub proof fn lemma_matching_labels_prefix(
    rules: Seq<Rule>,
    unit_name: Seq<char>,
    state: ActiveState,
    i: int,
)
    requires
        0 <= i <= rules.len(),
    ensures
        matching_labels(rules.take(i), unit_name, state).len() <= matching_labels(
            rules,
            unit_name,
            state,
        ).len(),
        forall|k: int|
            0 <= k < matching_labels(rules.take(i), unit_name, state).len() ==> matching_labels(
                rules,
                unit_name,
                state,
            )[k] == matching_labels(rules.take(i), unit_name, state)[k],
    decreases rules.len() - i,
{
    if i == rules.len() {
        assert(rules.take(i) =~= rules);
    } else {
        lemma_matching_labels_prefix(rules, unit_name, state, i + 1);
        assert(rules.take(i + 1).drop_last() =~= rules.take(i));
        assert(rules.take(i + 1).last() == rules[i]);
    }
}

/// Every label owed a notification resolves and the messages line up with
/// the labels, one apiece, in order.
pub open spec fn msgs_match_labels(
    msgs: Seq<NotifyMessage>,
    labels: Seq<Seq<char>>,
    nm: Map<Seq<char>, NotifierView>,
    unit_name: Seq<char>,
    new_state: ActiveState,
    old_state: Option<ActiveState>,
    timestamp: u64,
) -> bool {
    &&& msgs.len() == labels.len()
    &&& forall|k: int|
        0 <= k < labels.len() ==> nm.contains_key(#[trigger] labels[k]) && notify_message_ok(
            msgs[k],
            nm[labels[k]],
            unit_name,
            new_state,
            old_state,
            timestamp,
        )
}

/// The state sequence of one notification body.
fn encode_transition(new_state: ActiveState, old_state: Option<ActiveState>) -> (r: Vec<String>)
    ensures
        r.deep_view() == notify_states(new_state, old_state),
{
    let mut r: Vec<String> = Vec::new();
    r.push(new_state.encode());
    match old_state {
        Some(o) => {
            r.push(o.encode());
            proof {
                assert(r.deep_view() =~= notify_states(new_state, old_state));
            }
        },
        None => {
            proof {
                assert(r.deep_view() =~= notify_states(new_state, old_state));
            }
        },
    }
    r
}

/// The dispatcher's contract, as a predicate over its result: success
/// exactly when every owed label resolves, with one well-formed message per
/// label in order; otherwise an `InvalidNotifier` error naming the first
/// label that does not resolve.
pub open spec fn notifications_result(
    settings: Settings,
    unit_name: Seq<char>,
    active_state: ActiveState,
    old_state: Option<ActiveState>,
    timestamp: u64,
    r: Result<Vec<NotifyMessage>, Error>,
) -> bool {
    let labels = matching_labels(settings.rules@, unit_name, active_state);
    let nm = settings.notifier_map();
    &&& (r is Ok <==> (forall|k: int|
        0 <= k < labels.len() ==> nm.contains_key(#[trigger] labels[k])))
    &&& r matches Ok(msgs) ==> msgs_match_labels(
        msgs@,
        labels,
        nm,
        unit_name,
        active_state,
        old_state,
        timestamp,
    )
    &&& r matches Err(e) ==> (e matches Error::InvalidNotifier(label) && exists|k: int|
        0 <= k < labels.len() && !nm.contains_key(#[trigger] labels[k]) && label@ == labels[k] && (
        forall|k2: int| 0 <= k2 < k ==> nm.contains_key(#[trigger] labels[k2])))
}

/// Build the notifications one transition gives rise to: one message per
/// (matching rule, recipient label) pair, in configuration order. A label
/// that the configuration does not define is an `InvalidNotifier` error.
pub fn build_notifications(
    settings: &Settings,
    unit_name: &str,
    active_state: ActiveState,
    old_state: Option<ActiveState>,
    timestamp: u64,
) -> (r: Result<Vec<NotifyMessage>, Error>)
    ensures
        notifications_result(*settings, unit_name@, active_state, old_state, timestamp, r),
{
    let ghost nm = settings.notifier_map();
    let mut msgs: Vec<NotifyMessage> = Vec::new();
    let mut i: usize = 0;
    while i < settings.rules.len()
        invariant
            i <= settings.rules@.len(),
            nm == settings.notifier_map(),
            msgs_match_labels(
                msgs@,
                matching_labels(settings.rules@.take(i as int), unit_name@, active_state),
                nm,
                unit_name@,
                active_state,
                old_state,
                timestamp,
            ),
        decreases settings.rules@.len() - i,
    {
        let ghost labels_i = matching_labels(
            settings.rules@.take(i as int),
            unit_name@,
            active_state,
        );
        let rule = &settings.rules[i];
        if rule.matches_name(unit_name) && rule.matches_active_state(active_state) {
            let mut j: usize = 0;
            while j < rule.notifiers.len()
                invariant
                    i < settings.rules@.len(),
                    *rule == settings.rules@[i as int],
                    rule_applies(*rule, unit_name@, active_state),
                    nm == settings.notifier_map(),
                    labels_i == matching_labels(
                        settings.rules@.take(i as int),
                        unit_name@,
                        active_state,
                    ),
                    j <= rule.notifiers@.len(),
                    msgs_match_labels(
                        msgs@,
                        labels_i + rule.notifiers.deep_view().take(j as int),
                        nm,
                        unit_name@,
                        active_state,
                        old_state,
                        timestamp,
                    ),
                decreases rule.notifiers@.len() - j,
            {
                let label = &rule.notifiers[j];
                match settings.get_notifier(label.as_str()) {
                    None => {
                        proof {
                            let labels = matching_labels(
                                settings.rules@,
                                unit_name@,
                                active_state,
                            );
                            let partial = labels_i + rule.notifiers.deep_view().take(j as int);
                            let kk = partial.len() as int;
                            lemma_matching_labels_prefix(
                                settings.rules@,
                                unit_name@,
                                active_state,
                                i + 1,
                            );
                            assert(settings.rules@.take(i + 1).drop_last() =~= settings.rules@.take(
                                i as int,
                            ));
                            assert(settings.rules@.take(i + 1).last() == settings.rules@[i as int]);
                            assert(matching_labels(
                                settings.rules@.take(i + 1),
                                unit_name@,
                                active_state,
                            ) == labels_i + rule.notifiers.deep_view());
                            assert(labels[kk] == rule.notifiers.deep_view()[j as int]);
                            assert(!nm.contains_key(labels[kk]));
                            assert forall|k2: int| 0 <= k2 < kk implies nm.contains_key(
                                #[trigger] labels[k2],
                            ) by {
                                assert(labels[k2] == partial[k2]);
                            }
                        }
                        return Err(Error::InvalidNotifier(label.clone()));
                    },
                    Some(n) => {
                        let bus_name = n.get_bus_name();
                        let msg = NotifyMessage {
                            destination: bus_name.to_owned(),
                            path: make_path_like_bus_name(bus_name),
                            interface: INTERFACE_FOR_KILLJOY_NOTIFIER.to_owned(),
                            member: MEMBER_FOR_NOTIFY.to_owned(),
                            timestamp,
                            unit_name: unit_name.to_owned(),
                            active_states: encode_transition(active_state, old_state),
                            bus_type: n.get_bus_type(),
                        };
                        msgs.push(msg);
                        proof {
                            assert(rule.notifiers.deep_view().take(j + 1) =~= rule.notifiers
                                .deep_view().take(j as int).push(
                                rule.notifiers.deep_view()[j as int],
                            ));
                            assert(labels_i + rule.notifiers.deep_view().take(j + 1) =~= (labels_i
                                + rule.notifiers.deep_view().take(j as int)).push(
                                rule.notifiers.deep_view()[j as int],
                            ));
                        }
                    },
                }
                j = j + 1;
            }
            proof {
                assert(settings.rules@.take(i + 1).drop_last() =~= settings.rules@.take(i as int));
                assert(settings.rules@.take(i + 1).last() == settings.rules@[i as int]);
                assert(rule.notifiers.deep_view().take(rule.notifiers@.len() as int)
                    =~= rule.notifiers.deep_view());
                assert(matching_labels(settings.rules@.take(i + 1), unit_name@, active_state)
                    == labels_i + rule.notifiers.deep_view());
            }
        } else {
            proof {
                assert(settings.rules@.take(i + 1).drop_last() =~= settings.rules@.take(i as int));
                assert(settings.rules@.take(i + 1).last() == settings.rules@[i as int]);
                assert(matching_labels(settings.rules@.take(i + 1), unit_name@, active_state)
                    == labels_i);
            }
        }
        i = i + 1;
    }
    proof {
        assert(settings.rules@.take(settings.rules@.len() as int) =~= settings.rules@);
    }
    Ok(msgs)
}

/// The per-watcher mapping from unit name to that unit's state machine.
pub struct UnitStates {
    entries: Vec<(String, UnitStateMachine)>,
}

impl View for UnitStates {
    type V = Map<Seq<char>, (ActiveState, u64)>;

    closed spec fn view(&self) -> Map<Seq<char>, (ActiveState, u64)> {
        kv_map(self.entries@)
    }
}

impl UnitStates {
    /// The entry list never carries a unit name twice.
    pub closed spec fn wf(&self) -> bool {
        kv_unique_keys(self.entries@)
    }

    /// An empty mapping.
    pub fn new() -> (r: UnitStates)
        ensures
            r@ == Map::<Seq<char>, (ActiveState, u64)>::empty(),
            r.wf(),
    {
        UnitStates { entries: Vec::new() }
    }

    /// Look a unit's state machine up by unit name.
    pub fn get(&self, unit_name: &str) -> (r: Option<&UnitStateMachine>)
        ensures
            match r {
                Some(usm) => self@.contains_key(unit_name@) && usm@ == self@[unit_name@],
                None => !self@.contains_key(unit_name@),
            },
    {
        kv_get(&self.entries, unit_name)
    }

    /// Drop a unit's state machine. Removing an entry that does not exist is
    /// a no-op.
    pub fn remove(&mut self, unit_name: &str)
        requires
            old(self).wf(),
        ensures
            final(self).wf(),
            final(self)@ == old(self)@.remove(unit_name@),
            !old(self)@.contains_key(unit_name@) ==> final(self)@ == old(self)@,
    {
        let ghost prior = self.entries@;
        match kv_position(&self.entries, unit_name) {
            Some(i) => {
                self.entries.remove(i);
                proof {
                    lemma_kv_map_remove(prior, i as int);
                    assert forall|j: int, k: int|
                        0 <= j < k < self.entries@.len() implies (#[trigger] self.entries@[j]).0@
                        != (#[trigger] self.entries@[k]).0@ by {
                        let j0 = if j < i {
                            j
                        } else {
                            j + 1
                        };
                        let k0 = if k < i {
                            k
                        } else {
                            k + 1
                        };
                        assert(self.entries@[j] == prior[j0]);
                        assert(self.entries@[k] == prior[k0]);
                    }
                }
            },
            None => {
                proof {
                    assert(old(self)@.remove(unit_name@) =~= old(self)@);
                }
            },
        }
    }

    /// Fold an observation of a unit in. A unit not yet tracked gets a fresh
    /// state machine, reported as a transition out of "no state"
    /// (`Some(None)`); a tracked unit's machine is updated, and a state
    /// change is reported as `Some(Some(prior))`. `None` means nothing fired.
    pub fn upsert(&mut self, unit_name: &str, active_state: ActiveState, ts: MonotonicTimestamp)
        -> (fired: Option<Option<ActiveState>>)
        requires
            old(self).wf(),
        ensures
            final(self).wf(),
            !old(self)@.contains_key(unit_name@) ==> final(self)@ == old(self)@.insert(
                unit_name@,
                (active_state, ts.0),
            ) && fired == Some(Option::<ActiveState>::None),
            old(self)@.contains_key(unit_name@) ==> ({
                let prior = old(self)@[unit_name@];
                &&& ts.0 <= prior.1 ==> final(self)@ == old(self)@ && fired is None
                &&& ts.0 > prior.1 && active_state == prior.0 ==> final(self)@ == old(self)@.insert(
                    unit_name@,
                    (prior.0, ts.0),
                ) && fired is None
                &&& ts.0 > prior.1 && active_state != prior.0 ==> final(self)@ == old(
                    self,
                )@.insert(unit_name@, (active_state, ts.0)) && fired == Some(Some(prior.0))
            }),
    {
        let ghost prior_entries = self.entries@;
        match kv_position(&self.entries, unit_name) {
            None => {
                let usm = UnitStateMachine::new(active_state, ts);
                self.entries.push((unit_name.to_owned(), usm));
                proof {
                    assert(self.entries@.drop_last() =~= prior_entries);
                    assert forall|j: int, k: int|
                        0 <= j < k < self.entries@.len() implies (#[trigger] self.entries@[j]).0@
                        != (#[trigger] self.entries@[k]).0@ by {
                        if k == self.entries@.len() - 1 {
                            lemma_kv_map_contains(prior_entries, j);
                        }
                    }
                }
                Some(None)
            },
            Some(i) => {
                let mut entry = self.entries.remove(i);
                let inner = entry.1.update(active_state, ts);
                self.entries.push(entry);
                proof {
                    lemma_kv_map_remove(prior_entries, i as int);
                    assert(self.entries@.drop_last() =~= prior_entries.remove(i as int));
                    assert(self.entries@.last().0@ == unit_name@);
                    assert(kv_map(self.entries@) =~= kv_map(prior_entries.remove(i as int)).insert(
                        unit_name@,
                        self.entries@.last().1@,
                    ));
                    if ts.0 <= prior_entries[i as int].1@.1 {
                        assert(kv_map(self.entries@) =~= kv_map(prior_entries));
                    } else {
                        assert(kv_map(self.entries@) =~= kv_map(prior_entries).insert(
                            unit_name@,
                            self.entries@.last().1@,
                        ));
                    }
                    // uniqueness of the rebuilt list
                    assert forall|j: int, k: int|
                        0 <= j < k < self.entries@.len() implies (#[trigger] self.entries@[j]).0@
                        != (#[trigger] self.entries@[k]).0@ by {
                        if k < self.entries@.len() - 1 {
                            let j0 = if j < i {
                                j
                            } else {
                                j + 1
                            };
                            let k0 = if k < i {
                                k
                            } else {
                                k + 1
                            };
                            assert(self.entries@[j] == prior_entries[j0]);
                            assert(self.entries@[k] == prior_entries[k0]);
                        } else {
                            let j0 = if j < i {
                                j
                            } else {
                                j + 1
                            };
                            assert(self.entries@[j] == prior_entries[j0]);
                        }
                    }
                }
                match inner {
                    Some(prior_state) => Some(Some(prior_state)),
                    None => None,
                }
            },
        }
    }
}

/// What one property set observes, as far as an upsert is concerned: a
/// lifecycle state with the monotonic timestamp of its entry, or the exact
/// way the property set falls short.
pub enum Observation {
    Observed(ActiveState, u64),
    LacksActiveState,
    CastActiveState,
    BadActiveState(Seq<char>),
    LacksTimestamp(ActiveState, Seq<char>),
    CastTimestamp(Seq<char>),
}

/// Classify a property set: its `ActiveState` string decoded, and the
/// matching monotonic timestamp read under that state's timestamp key.
pub open spec fn observe(props: Map<Seq<char>, PropView>) -> Observation {
    if !props.contains_key("ActiveState"@) {
        Observation::LacksActiveState
    } else {
        match props["ActiveState"@] {
            PropView::Str(s) => match decode_active_state(s) {
                Some(st) => {
                    let k = monotonic_timestamp_key(st);
                    if !props.contains_key(k) {
                        Observation::LacksTimestamp(st, k)
                    } else {
                        match props[k] {
                            PropView::U64(t) => Observation::Observed(st, t),
                            _ => Observation::CastTimestamp(k),
                        }
                    }
                },
                None => Observation::BadActiveState(s),
            },
            _ => Observation::CastActiveState,
        }
    }
}

/// Whether any rule's expression matches the given unit name.
pub open spec fn any_rule_matches(settings: Settings, unit_name: Seq<char>) -> bool {
    exists|i: int|
        0 <= i < settings.rules@.len() && rule_matches_name(
            #[trigger] settings.rules@[i],
            unit_name,
        )
}

/// How an accepted observation `(st, t)` changes the unit-state mapping and
/// what an upsert returns for it: the mapping is updated exactly when the
/// timestamp is strictly newer or the unit is new, and notifications are
/// owed exactly when a transition fired.
pub open spec fn upsert_transition(
    settings: Settings,
    m0: Map<Seq<char>, (ActiveState, u64)>,
    unit_name: Seq<char>,
    st: ActiveState,
    t: u64,
    r: Result<Vec<NotifyMessage>, Error>,
    m1: Map<Seq<char>, (ActiveState, u64)>,
) -> bool {
    let fired: Option<Option<ActiveState>> = if !m0.contains_key(unit_name) {
        Some(None)
    } else if t > m0[unit_name].1 && st != m0[unit_name].0 {
        Some(Some(m0[unit_name].0))
    } else {
        None
    };
    &&& m1 == (if m0.contains_key(unit_name) && t <= m0[unit_name].1 {
        m0
    } else {
        m0.insert(unit_name, (st, t))
    })
    &&& match fired {
        None => r matches Ok(msgs) && msgs@.len() == 0,
        Some(old_st) => notifications_result(settings, unit_name, st, old_st, t, r),
    }
}

/// What folding one property set in does: an exact error for each way the
/// property set falls short, and the transition behavior otherwise.
pub open spec fn upsert_behavior(
    settings: Settings,
    m0: Map<Seq<char>, (ActiveState, u64)>,
    unit_name: Seq<char>,
    props: Map<Seq<char>, PropView>,
    r: Result<Vec<NotifyMessage>, Error>,
    m1: Map<Seq<char>, (ActiveState, u64)>,
) -> bool {
    match observe(props) {
        Observation::Observed(st, t) => upsert_transition(settings, m0, unit_name, st, t, r, m1),
        Observation::LacksActiveState => r matches Err(Error::PropertiesLacksActiveState) && m1
            == m0,
        Observation::CastActiveState => r matches Err(
            Error::CastOrgFreedesktopSystemd1UnitActiveState,
        ) && m1 == m0,
        Observation::BadActiveState(s) => (r matches Err(Error::InvalidActiveState(bad)) && bad@
            == s) && m1 == m0,
        Observation::LacksTimestamp(st, k) => (r matches Err(
            Error::PropertiesLacksTimestamp(st2, k2),
        ) && st2 == st && k2@ == k) && m1 == m0,
        Observation::CastTimestamp(k) => (r matches Err(
            Error::CastOrgFreedesktopSystemd1UnitTimestamp(k2),
        ) && k2@ == k) && m1 == m0,
    }
}

/// Monotonic timestamp: folding a property set in never drops a tracked
/// unit, and never decreases any unit's recorded timestamp.
pub proof fn lemma_upsert_monotonic(
    settings: Settings,
    m0: Map<Seq<char>, (ActiveState, u64)>,
    unit_name: Seq<char>,
    props: Map<Seq<char>, PropView>,
    r: Result<Vec<NotifyMessage>, Error>,
    m1: Map<Seq<char>, (ActiveState, u64)>,
)
    requires
        upsert_behavior(settings, m0, unit_name, props, r, m1),
    ensures
        forall|u: Seq<char>|
            m0.contains_key(u) ==> m1.contains_key(u) && (#[trigger] m1[u]).1 >= m0[u].1,
{
}

/// The decision core of one bus watcher: the configuration it watches under
/// and the state machines of the units it tracks.
///
/// The front-end owning the connection translates each inbound message into
/// plain values, calls the matching handler here, and transmits whatever
/// notifications come back.
pub struct BusWatcher {
    settings: Settings,
    unit_states: UnitStates,
}

impl BusWatcher {
    /// The configuration this watcher works under.
    pub closed spec fn spec_settings(&self) -> Settings {
        self.settings
    }

    /// The tracked units: each unit's recorded state and timestamp.
    pub closed spec fn spec_states(&self) -> Map<Seq<char>, (ActiveState, u64)> {
        self.unit_states@
    }

    /// The unit-state mapping never tracks a unit twice.
    pub closed spec fn wf(&self) -> bool {
        self.unit_states.wf()
    }

    /// A watcher that tracks no units yet.
    pub fn new(settings: Settings) -> (r: BusWatcher)
        ensures
            r.wf(),
            r.spec_settings() == settings,
            r.spec_states() == Map::<Seq<char>, (ActiveState, u64)>::empty(),
    {
        BusWatcher { settings, unit_states: UnitStates::new() }
    }

    /// Whether any rule makes this unit interesting.
    pub fn should_watch(&self, unit_name: &str) -> (r: bool)
        ensures
            r == any_rule_matches(self.spec_settings(), unit_name@),
    {
        rules_match_name(&self.settings.rules, unit_name)
    }

    /// The tracked state machine of a unit, if any.
    pub fn get_unit_state(&self, unit_name: &str) -> (r: Option<&UnitStateMachine>)
        ensures
            match r {
                Some(usm) => self.spec_states().contains_key(unit_name@) && usm@
                    == self.spec_states()[unit_name@],
                None => !self.spec_states().contains_key(unit_name@),
            },
    {
        self.unit_states.get(unit_name)
    }

    /// Fold one unit's property set in: decode its state and matching
    /// timestamp, upsert the unit's state machine, and build the
    /// notifications of whatever transition fired.
    pub fn upsert_unit_states(&mut self, unit_name: &str, unit_props: &UnitProps) -> (r: Result<
        Vec<NotifyMessage>,
        Error,
    >)
        requires
            old(self).wf(),
        ensures
            final(self).wf(),
            final(self).spec_settings() == old(self).spec_settings(),
            upsert_behavior(
                old(self).spec_settings(),
                old(self).spec_states(),
                unit_name@,
                unit_props@,
                r,
                final(self).spec_states(),
            ),
    {
        let active_state = match get_active_state(unit_props) {
            Ok(st) => st,
            Err(e) => {
                return Err(e);
            },
        };
        let ts = match get_monotonic_timestamp(active_state, unit_props) {
            Ok(t) => t,
            Err(e) => {
                return Err(e);
            },
        };
        let fired = self.unit_states.upsert(unit_name, active_state, ts);
        match fired {
            None => Ok(Vec::new()),
            Some(old_st) => build_notifications(
                &self.settings,
                unit_name,
                active_state,
                old_st,
                ts.0,
            ),
        }
    }

    /// Handle a newly loaded unit: one that no rule makes interesting is
    /// ignored; otherwise its property set is folded in.
    pub fn handle_unit_new(&mut self, unit_name: &str, unit_props: &UnitProps) -> (r: Result<
        Vec<NotifyMessage>,
        Error,
    >)
        requires
            old(self).wf(),
        ensures
            final(self).wf(),
            final(self).spec_settings() == old(self).spec_settings(),
            !any_rule_matches(old(self).spec_settings(), unit_name@) ==> (r matches Ok(msgs)
                && msgs@.len() == 0) && final(self).spec_states() == old(self).spec_states(),
            any_rule_matches(old(self).spec_settings(), unit_name@) ==> upsert_behavior(
                old(self).spec_settings(),
                old(self).spec_states(),
                unit_name@,
                unit_props@,
                r,
                final(self).spec_states(),
            ),
    {
        if rules_match_name(&self.settings.rules, unit_name) {
            self.upsert_unit_states(unit_name, unit_props)
        } else {
            Ok(Vec::new())
        }
    }

    /// Handle an unloaded unit: one that no rule makes interesting is
    /// ignored; otherwise its state machine is dropped, and dropping one
    /// that does not exist changes nothing. The caller uninstalls the
    /// unit's signal filter exactly when this returns true.
    pub fn handle_unit_removed(&mut self, unit_name: &str) -> (matched: bool)
        requires
            old(self).wf(),
        ensures
            final(self).wf(),
            final(self).spec_settings() == old(self).spec_settings(),
            matched == any_rule_matches(old(self).spec_settings(), unit_name@),
            matched ==> final(self).spec_states() == old(self).spec_states().remove(unit_name@),
            !matched ==> final(self).spec_states() == old(self).spec_states(),
            !old(self).spec_states().contains_key(unit_name@) ==> final(self).spec_states()
                == old(self).spec_states(),
    {
        if rules_match_name(&self.settings.rules, unit_name) {
            self.unit_states.remove(unit_name);
            true
        } else {
            false
        }
    }

    /// Handle a property-change signal, already resolved to a unit name. A
    /// signal for any interface but the manager's per-unit interface is
    /// ignored, as is one whose changed properties omit `ActiveState`;
    /// anything else is folded in.
    pub fn handle_properties_changed(
        &mut self,
        interface: &str,
        changed: &UnitProps,
        unit_name: &str,
    ) -> (r: Result<Vec<NotifyMessage>, Error>)
        requires
            old(self).wf(),
        ensures
            final(self).wf(),
            final(self).spec_settings() == old(self).spec_settings(),
            ({
                let unchanged = final(self).spec_states() == old(self).spec_states();
                let ignored = (r matches Ok(msgs) && msgs@.len() == 0) && unchanged;
                &&& interface@ != "org.freedesktop.systemd1.Unit"@ ==> ignored
                &&& (interface@ == "org.freedesktop.systemd1.Unit"@ && observe(
                    changed@,
                ) is LacksActiveState) ==> ignored
            }),
            (interface@ == "org.freedesktop.systemd1.Unit"@ && !(observe(
                changed@,
            ) is LacksActiveState)) ==> upsert_behavior(
                old(self).spec_settings(),
                old(self).spec_states(),
                unit_name@,
                changed@,
                r,
                final(self).spec_states(),
            ),
    {
        if !str_eq(interface, INTERFACE_FOR_SYSTEMD_UNIT) {
            return Ok(Vec::new());
        }
        match self.upsert_unit_states(unit_name, changed) {
            Ok(msgs) => Ok(msgs),
            Err(e) => match e {
                Error::PropertiesLacksActiveState => Ok(Vec::new()),
                other => Err(other),
            },
        }
    }
}

} // verus!
