//! The watcher's configuration: which bus to watch, which unit names and
//! lifecycle states are interesting, and which recipients to notify.

use vstd::prelude::*;
use vstd::string::StrSliceExecFns;

use crate::error::Error;
use crate::kvlist::{kv_get, kv_map};
use crate::strutil::{seq_ends_with, str_eq, str_ends_with};
use crate::unit::{decode_active_state, ActiveState};

verus! {

/// The kind of message bus a rule or recipient binds to.
#[derive(Clone, Copy, Debug, Eq, Hash, PartialEq, Structural)]
pub enum BusType {
    Session,
    Starter,
    System,
}

/// The bus type a configuration string stands for; `None` for any other
/// string.
pub open spec fn bus_type_of(s: Seq<char>) -> Option<BusType> {
    if s == "session"@ {
        Some(BusType::Session)
    } else if s == "starter"@ {
        Some(BusType::Starter)
    } else if s == "system"@ {
        Some(BusType::System)
    } else {
        None
    }
}

/// Decode a bus type from its configuration string; any other string is an
/// `InvalidBusType` error carrying that string.
pub fn decode_bus_type_str(bus_type_str: &str) -> (r: Result<BusType, Error>)
    ensures
        match bus_type_of(bus_type_str@) {
            Some(bt) => r == Ok::<BusType, Error>(bt),
            None => r matches Err(Error::InvalidBusType(s)) && s@ == bus_type_str@,
        },
{
    if str_eq(bus_type_str, "session") {
        Ok(BusType::Session)
    } else if str_eq(bus_type_str, "starter") {
        Ok(BusType::Starter)
    } else if str_eq(bus_type_str, "system") {
        Ok(BusType::System)
    } else {
        Err(Error::InvalidBusType(bus_type_str.to_owned()))
    }
}

/// A character permitted inside a bus-name element: ASCII letters, digits,
/// `_` and `-`.
pub open spec fn is_element_char(c: char) -> bool {
    ||| 'A' as u32 <= c as u32 && c as u32 <= 'Z' as u32
    ||| 'a' as u32 <= c as u32 && c as u32 <= 'z' as u32
    ||| is_digit_char(c)
    ||| c == '_'
    ||| c == '-'
}

/// An ASCII decimal digit.
pub open spec fn is_digit_char(c: char) -> bool {
    '0' as u32 <= c as u32 && c as u32 <= '9' as u32
}

/// A syntactically valid bus name, per the message-bus addressing rules: at
/// most 255 characters; two or more non-empty dot-separated elements of
/// letters, digits, `_` and `-`; elements of a well-known name must not begin
/// with a digit; a unique name begins with `:` and its elements may begin
/// with digits.
pub open spec fn valid_bus_name(s: Seq<char>) -> bool {
    let unique = s.len() > 0 && s[0] == ':';
    let start: int = if unique {
        1
    } else {
        0
    };
    &&& s.len() <= 255
    &&& s.len() > start
    &&& s[start] != '.'
    &&& s[s.len() - 1] != '.'
    &&& exists|i: int| start <= i < s.len() && s[i] == '.'
    &&& forall|i: int| start <= i < s.len() ==> is_element_char(#[trigger] s[i]) || s[i] == '.'
    &&& forall|i: int| start < i < s.len() ==> !(s[i - 1] == '.' && #[trigger] s[i] == '.')
    &&& !unique ==> !is_digit_char(s[start])
    &&& !unique ==> forall|i: int|
        start < i < s.len() ==> (s[i - 1] == '.' ==> !is_digit_char(#[trigger] s[i]))
}

/// Whether `c` may appear inside a bus-name element.
fn element_char(c: char) -> (r: bool)
    ensures
        r == is_element_char(c),
{
    let u = c as u32;
    ('A' as u32 <= u && u <= 'Z' as u32) || ('a' as u32 <= u && u <= 'z' as u32) || digit_char(c)
        || c == '_' || c == '-'
}

/// Whether `c` is an ASCII decimal digit.
fn digit_char(c: char) -> (r: bool)
    ensures
        r == is_digit_char(c),
{
    let u = c as u32;
    '0' as u32 <= u && u <= '9' as u32
}

/// Check a bus name against the message-bus addressing rules.
pub fn check_bus_name(s: &str) -> (r: bool)
    ensures
        r == valid_bus_name(s@),
{
    let len = s.unicode_len();
    if len == 0 || len > 255 {
        return false;
    }
    let unique = s.get_char(0) == ':';
    let start: usize = if unique {
        1
    } else {
        0
    };
    if len <= start {
        return false;
    }
    if s.get_char(start) == '.' {
        return false;
    }
    if s.get_char(len - 1) == '.' {
        return false;
    }
    if !unique && digit_char(s.get_char(start)) {
        return false;
    }
    let mut have_dot = false;
    let mut prev_was_dot = false;
    let mut i: usize = start;
    while i < len
        invariant
            len == s@.len(),
            0 < len <= 255,
            start <= i <= len,
            unique == (s@[0] == ':'),
            start == (if unique {
                1int
            } else {
                0int
            }),
            start < len,
            s@[start as int] != '.',
            i > start ==> prev_was_dot == (s@[i - 1] == '.'),
            i == start ==> !prev_was_dot,
            have_dot == exists|j: int| start <= j < i && s@[j] == '.',
            forall|j: int| start <= j < i ==> is_element_char(#[trigger] s@[j]) || s@[j] == '.',
            forall|j: int| start < j < i ==> !(s@[j - 1] == '.' && #[trigger] s@[j] == '.'),
            !unique ==> !is_digit_char(s@[start as int]),
            !unique ==> forall|j: int|
                start < j < i ==> (s@[j - 1] == '.' ==> !is_digit_char(#[trigger] s@[j])),
        decreases len - i,
    {
        let c = s.get_char(i);
        if c == '.' {
            if prev_was_dot {
                return false;
            }
            have_dot = true;
        } else if !element_char(c) {
            return false;
        } else if prev_was_dot && !unique && digit_char(c) {
            return false;
        }
        prev_was_dot = c == '.';
        i = i + 1;
    }
    have_dot
}

#[verifier::external_type_specification]
#[verifier::external_body]
pub struct ExRegex(regex::Regex);

/// The pattern a compiled regular expression was built from, as
/// `regex::Regex::as_str` returns it.
pub uninterp spec fn regex_pattern(re: regex::Regex) -> Seq<char>;

/// Whether `regex::Regex::new` accepts a pattern.
pub uninterp spec fn regex_compiles(pattern: Seq<char>) -> bool;

/// Whether a compiled pattern matches somewhere inside a text, as
/// `regex::Regex::is_match` decides it.
pub uninterp spec fn regex_accepts(pattern: Seq<char>, text: Seq<char>) -> bool;

/// Relies on `regex::Regex::new`: whether a pattern compiles depends on the
/// pattern alone, and the compiled value keeps its pattern, which
/// `regex::Regex::as_str` returns.
#[verifier::external_body]
fn regex_new(pattern: &str) -> (r: Option<regex::Regex>)
    ensures
        r is Some <==> regex_compiles(pattern@),
        r matches Some(re) ==> regex_pattern(re) == pattern@,
{
    regex::Regex::new(pattern).ok()
}

/// Relies on `regex::Regex::is_match`: whether a haystack matches anywhere
/// (partial-match mode) depends on the compiled pattern and the haystack
/// alone.
#[verifier::external_body]
fn regex_is_match(re: &regex::Regex, text: &str) -> (r: bool)
    ensures
        r == regex_accepts(regex_pattern(*re), text@),
{
    re.is_match(text)
}

/// The expressions a user may use to match unit names.
#[derive(Debug)]
pub enum Expression {
    Regex(regex::Regex),
    UnitName(String),
    UnitType(String),
}

/// The mathematical shape of an expression: its kind and its pattern.
pub enum ExpressionView {
    Regex(Seq<char>),
    UnitName(Seq<char>),
    UnitType(Seq<char>),
}

impl View for Expression {
    type V = ExpressionView;

    open spec fn view(&self) -> ExpressionView {
        match self {
            Expression::Regex(re) => ExpressionView::Regex(regex_pattern(*re)),
            Expression::UnitName(s) => ExpressionView::UnitName(s@),
            Expression::UnitType(s) => ExpressionView::UnitType(s@),
        }
    }
}

/// Whether an expression matches a unit name: an exact-name expression by
/// equality, a unit-type expression by literal suffix, a regular expression
/// in partial-match mode.
pub open spec fn expression_matches(e: ExpressionView, unit_name: Seq<char>) -> bool {
    match e {
        ExpressionView::Regex(p) => regex_accepts(p, unit_name),
        ExpressionView::UnitName(p) => unit_name == p,
        ExpressionView::UnitType(p) => seq_ends_with(unit_name, p),
    }
}

impl Expression {
    /// Check whether this expression matches the given unit name.
    pub fn matches(&self, unit_name: &str) -> (r: bool)
        ensures
            r == expression_matches(self@, unit_name@),
    {
        match self {
            Expression::Regex(re) => regex_is_match(re, unit_name),
            Expression::UnitName(expr) => str_eq(unit_name, expr.as_str()),
            Expression::UnitType(expr) => str_ends_with(unit_name, expr.as_str()),
        }
    }
}

/// A bus service that is contacted when an event of interest happens.
#[derive(Debug)]
pub struct Notifier {
    bus_name: String,
    pub bus_type: BusType,
}

/// The mathematical shape of a notifier: its bus name and bus type.
pub struct NotifierView {
    pub bus_name: Seq<char>,
    pub bus_type: BusType,
}

impl View for Notifier {
    type V = NotifierView;

    closed spec fn view(&self) -> NotifierView {
        NotifierView { bus_name: self.bus_name@, bus_type: self.bus_type }
    }
}

impl Notifier {
    /// A notifier's bus name is kept syntactically valid.
    pub open spec fn wf(&self) -> bool {
        valid_bus_name(self@.bus_name)
    }

    /// Create a notifier, rejecting a syntactically invalid bus name.
    pub fn new(bus_name: &str, bus_type: BusType) -> (r: Result<Notifier, Error>)
        ensures
            valid_bus_name(bus_name@) ==> (r matches Ok(n) && n@.bus_name == bus_name@
                && n@.bus_type == bus_type && n.wf()),
            !valid_bus_name(bus_name@) ==> (r matches Err(Error::InvalidBusName(s)) && s@
                == bus_name@),
    {
        if check_bus_name(bus_name) {
            Ok(Notifier { bus_name: bus_name.to_owned(), bus_type })
        } else {
            Err(Error::InvalidBusName(bus_name.to_owned()))
        }
    }

    /// The bus name this notifier is addressed by.
    pub fn get_bus_name(&self) -> (r: &str)
        ensures
            r@ == self@.bus_name,
    {
        self.bus_name.as_str()
    }

    /// The bus this notifier is reachable on.
    pub fn get_bus_type(&self) -> (r: BusType)
        ensures
            r == self@.bus_type,
    {
        self.bus_type
    }
}

/// Units to watch, and notifiers to contact when any of them enters a state
/// of interest.
#[derive(Debug)]
pub struct Rule {
    pub active_states: Vec<ActiveState>,
    pub bus_type: BusType,
    pub expression: Expression,
    pub notifiers: Vec<String>,
}

impl Rule {
    /// Build a rule from the plain values of a configuration document:
    /// decode each state string, the bus type, and the expression kind,
    /// rejecting the first invalid value.
    pub fn try_from_parts(
        active_states: &Vec<String>,
        bus_type: &str,
        expression: &str,
        expression_type: &str,
        notifiers: &Vec<String>,
    ) -> (r: Result<Rule, Error>)
        ensures
            ({
                let states = active_states.deep_view();
                let states_ok = forall|i: int|
                    0 <= i < states.len() ==> decode_active_state(#[trigger] states[i]) is Some;
                let bt = bus_type_of(bus_type@);
                &&& !states_ok ==> (r matches Err(Error::InvalidActiveState(s)) && exists|i: int|
                    0 <= i < states.len() && decode_active_state(#[trigger] states[i]) is None && s@
                        == states[i] && (forall|j: int|
                        0 <= j < i ==> decode_active_state(#[trigger] states[j]) is Some))
                &&& states_ok && bt is None ==> (r matches Err(Error::InvalidBusType(s)) && s@
                    == bus_type@)
                &&& states_ok && bt is Some ==> (if expression_type@ == "regex"@ {
                    if regex_compiles(expression@) {
                        r is Ok
                    } else {
                        r matches Err(Error::InvalidRegex(s)) && s@ == expression@
                    }
                } else if expression_type@ == "unit name"@ || expression_type@ == "unit type"@ {
                    r is Ok
                } else {
                    r matches Err(Error::InvalidExpressionType(s)) && s@ == expression_type@
                })
                &&& r matches Ok(rule) ==> {
                    &&& rule.active_states@.len() == states.len()
                    &&& forall|i: int|
                        0 <= i < states.len() ==> Some(#[trigger] rule.active_states@[i])
                            == decode_active_state(states[i])
                    &&& Some(rule.bus_type) == bt
                    &&& rule.expression@ == (if expression_type@ == "regex"@ {
                        ExpressionView::Regex(expression@)
                    } else if expression_type@ == "unit name"@ {
                        ExpressionView::UnitName(expression@)
                    } else {
                        ExpressionView::UnitType(expression@)
                    })
                    &&& rule.notifiers.deep_view() == notifiers.deep_view()
                }
            }),
    {
        let mut decoded: Vec<ActiveState> = Vec::new();
        let mut idx: usize = 0;
        while idx < active_states.len()
            invariant
                idx <= active_states@.len(),
                decoded@.len() == idx,
                forall|j: int|
                    0 <= j < idx ==> Some(#[trigger] decoded@[j]) == decode_active_state(
                        active_states.deep_view()[j],
                    ),
            decreases active_states@.len() - idx,
        {
            match ActiveState::decode(active_states[idx].as_str()) {
                Ok(st) => decoded.push(st),
                Err(e) => {
                    proof {
                        let states = active_states.deep_view();
                        assert(states[idx as int] == active_states@[idx as int]@);
                        assert(decode_active_state(states[idx as int]) is None);
                        assert forall|j: int|
                            0 <= j < idx implies decode_active_state(
                            #[trigger] states[j],
                        ) is Some by {
                            assert(Some(decoded@[j]) == decode_active_state(states[j]));
                        }
                    }
                    return Err(e);
                },
            }
            idx = idx + 1;
        }
        proof {
            let states = active_states.deep_view();
            assert forall|j: int|
                0 <= j < states.len() implies decode_active_state(#[trigger] states[j]) is Some by {
                assert(Some(decoded@[j]) == decode_active_state(states[j]));
            }
        }

        let bt = match decode_bus_type_str(bus_type) {
            Ok(b) => b,
            Err(e) => {
                return Err(e);
            },
        };

        let expr: Expression = if str_eq(expression_type, "regex") {
            match regex_new(expression) {
                Some(re) => Expression::Regex(re),
                None => {
                    return Err(Error::InvalidRegex(expression.to_owned()));
                },
            }
        } else if str_eq(expression_type, "unit name") {
            Expression::UnitName(expression.to_owned())
        } else if str_eq(expression_type, "unit type") {
            Expression::UnitType(expression.to_owned())
        } else {
            return Err(Error::InvalidExpressionType(expression_type.to_owned()));
        };

        Ok(
            Rule {
                active_states: decoded,
                bus_type: bt,
                expression: expr,
                notifiers: clone_string_vec(notifiers),
            },
        )
    }

    /// Whether this rule's expression matches the given unit name.
    pub fn matches_name(&self, unit_name: &str) -> (r: bool)
        ensures
            r == expression_matches(self.expression@, unit_name@),
    {
        self.expression.matches(unit_name)
    }

    /// Whether the given state is among this rule's states of interest.
    pub fn matches_active_state(&self, target: ActiveState) -> (r: bool)
        ensures
            r == self.active_states@.contains(target),
    {
        let mut i: usize = 0;
        while i < self.active_states.len()
            invariant
                i <= self.active_states@.len(),
                forall|j: int| 0 <= j < i ==> self.active_states@[j] != target,
            decreases self.active_states@.len() - i,
        {
            if self.active_states[i] == target {
                return true;
            }
            i = i + 1;
        }
        false
    }
}

/// An element-by-element copy of a vector of strings.
fn clone_string_vec(v: &Vec<String>) -> (r: Vec<String>)
    ensures
        r@.len() == v@.len(),
        forall|i: int| 0 <= i < v@.len() ==> (#[trigger] r@[i])@ == v@[i]@,
        r.deep_view() == v.deep_view(),
{
    let mut r: Vec<String> = Vec::new();
    let mut i: usize = 0;
    while i < v.len()
        invariant
            i <= v@.len(),
            r@.len() == i,
            forall|j: int| 0 <= j < i ==> (#[trigger] r@[j])@ == v@[j]@,
        decreases v@.len() - i,
    {
        r.push(v[i].clone());
        i = i + 1;
    }
    proof {
        assert(r.deep_view() =~= v.deep_view());
    }
    r
}

/// The active configuration: the recipients by label, and the monitoring
/// rules in the order the user declared them.
#[derive(Debug)]
pub struct Settings {
    pub notifiers: Vec<(String, Notifier)>,
    pub rules: Vec<Rule>,
}

impl Settings {
    /// The recipient mapping this configuration declares.
    pub open spec fn notifier_map(&self) -> Map<Seq<char>, NotifierView> {
        kv_map(self.notifiers@)
    }

    /// Assemble a configuration, rejecting a rule that references a
    /// recipient label the recipient mapping does not define.
    pub fn from_parts(notifiers: Vec<(String, Notifier)>, rules: Vec<Rule>) -> (r: Result<
        Settings,
        Error,
    >)
        ensures
            ({
                let nm = kv_map(notifiers@);
                let all_ok = forall|i: int, j: int|
                    0 <= i < rules@.len() && 0 <= j < rules@[i].notifiers@.len() ==> nm.contains_key(
                        ((#[trigger] rules@[i].notifiers@[j])@),
                    );
                &&& all_ok ==> (r matches Ok(s) && s.notifiers@ == notifiers@ && s.rules@
                    == rules@)
                &&& !all_ok ==> (r matches Err(Error::InvalidNotifier(label)) && exists|
                    i: int,
                    j: int,
                |
                    0 <= i < rules@.len() && 0 <= j < rules@[i].notifiers@.len()
                        && !nm.contains_key(((#[trigger] rules@[i].notifiers@[j])@)) && label@ == (
                    rules@[i].notifiers@[j])@ && (forall|i2: int, j2: int|
                        0 <= i2 < rules@.len() && 0 <= j2 < rules@[i2].notifiers@.len() && (i2 < i
                            || (i2 == i && j2 < j)) ==> nm.contains_key(
                            ((#[trigger] rules@[i2].notifiers@[j2])@),
                        )))
            }),
    {
        let mut i: usize = 0;
        while i < rules.len()
            invariant
                i <= rules@.len(),
                forall|k: int, j: int|
                    0 <= k < i && 0 <= j < rules@[k].notifiers@.len() ==> kv_map(
                        notifiers@,
                    ).contains_key(((#[trigger] rules@[k].notifiers@[j])@)),
            decreases rules@.len() - i,
        {
            let rule_notifiers = &rules[i].notifiers;
            let mut j: usize = 0;
            while j < rule_notifiers.len()
                invariant
                    i < rules@.len(),
                    rule_notifiers@ == rules@[i as int].notifiers@,
                    j <= rule_notifiers@.len(),
                    forall|k: int, l: int|
                        0 <= k < i && 0 <= l < rules@[k].notifiers@.len() ==> kv_map(
                            notifiers@,
                        ).contains_key(((#[trigger] rules@[k].notifiers@[l])@)),
                    forall|k: int|
                        0 <= k < j ==> kv_map(notifiers@).contains_key(
                            ((#[trigger] rule_notifiers@[k])@),
                        ),
                decreases rule_notifiers@.len() - j,
            {
                if kv_get(&notifiers, rule_notifiers[j].as_str()).is_none() {
                    proof {
                        let nm = kv_map(notifiers@);
                        assert forall|i2: int, j2: int|
                            0 <= i2 < rules@.len() && 0 <= j2 < rules@[i2].notifiers@.len() && (i2
                                < i || (i2 == i && j2 < j)) implies nm.contains_key(
                            ((#[trigger] rules@[i2].notifiers@[j2])@),
                        ) by {
                            if i2 == i {
                                assert(nm.contains_key((rule_notifiers@[j2])@));
                            }
                        }
                    }
                    return Err(Error::InvalidNotifier(rule_notifiers[j].clone()));
                }
                j = j + 1;
            }
            i = i + 1;
        }
        Ok(Settings { notifiers, rules })
    }

    /// Look a recipient up by label.
    pub fn get_notifier(&self, name: &str) -> (r: Option<&Notifier>)
        ensures
            match r {
                Some(n) => self.notifier_map().contains_key(name@) && n@
                    == self.notifier_map().index(name@),
                None => !self.notifier_map().contains_key(name@),
            },
    {
        kv_get(&self.notifiers, name)
    }
}

/// The distinct bus types the given rules reference, each exactly once.
pub fn get_bus_types(rules: &Vec<Rule>) -> (r: Vec<BusType>)
    ensures
        forall|bt: BusType|
            r@.contains(bt) <==> exists|i: int|
                0 <= i < rules@.len() && (#[trigger] rules@[i]).bus_type == bt,
        forall|i: int, j: int| 0 <= i < j < r@.len() ==> r@[i] != r@[j],
{
    let mut r: Vec<BusType> = Vec::new();
    let mut i: usize = 0;
    while i < rules.len()
        invariant
            i <= rules@.len(),
            forall|bt: BusType|
                r@.contains(bt) <==> exists|k: int|
                    0 <= k < i && (#[trigger] rules@[k]).bus_type == bt,
            forall|k: int, j: int| 0 <= k < j < r@.len() ==> r@[k] != r@[j],
        decreases rules@.len() - i,
    {
        let bt = rules[i].bus_type;
        if !bus_types_contain(&r, bt) {
            let ghost prior = r@;
            r.push(bt);
            proof {
                assert(r@.last() == bt);
                assert forall|x: BusType| #[trigger] r@.contains(x) implies (exists|k: int|
                    0 <= k < i + 1 && (#[trigger] rules@[k]).bus_type == x) by {
                    let idx = choose|idx: int| 0 <= idx < r@.len() && r@[idx] == x;
                    if idx < prior.len() {
                        assert(prior[idx] == x);
                        assert(prior.contains(x));
                    } else {
                        assert(x == bt);
                        assert((rules@[i as int]).bus_type == x);
                    }
                }
                assert forall|x: BusType|
                    (exists|k: int| 0 <= k < i + 1 && (#[trigger] rules@[k]).bus_type
                        == x) implies #[trigger] r@.contains(x) by {
                    let k = choose|k: int| 0 <= k < i + 1 && rules@[k].bus_type == x;
                    if k < i {
                        assert(prior.contains(x));
                        let idx = choose|idx: int| 0 <= idx < prior.len() && prior[idx] == x;
                        assert(r@[idx] == x);
                    } else {
                        assert(r@[prior.len() as int] == x);
                    }
                }
            }
        } else {
            proof {
                assert(r@.contains(rules@[i as int].bus_type));
                assert forall|x: BusType| #[trigger] r@.contains(x) implies (exists|k: int|
                    0 <= k < i + 1 && (#[trigger] rules@[k]).bus_type == x) by {
                    assert(exists|k: int| 0 <= k < i && (#[trigger] rules@[k]).bus_type == x);
                }
            }
        }
        i = i + 1;
    }
    r
}

/// Whether the given bus type is already listed.
fn bus_types_contain(v: &Vec<BusType>, bt: BusType) -> (r: bool)
    ensures
        r == v@.contains(bt),
{
    let mut i: usize = 0;
    while i < v.len()
        invariant
            i <= v@.len(),
            forall|j: int| 0 <= j < i ==> v@[j] != bt,
        decreases v@.len() - i,
    {
        if v[i] == bt {
            return true;
        }
        i = i + 1;
    }
    false
}

} // verus!
