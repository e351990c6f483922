//! Validation of state machine definitions: first their shape, then, for a
//! well-shaped definition, whether the states they name exist, with warnings
//! for states that cannot be reached or cannot be left.

use vstd::prelude::*;
use crate::classify::same_text;
use crate::json::{Json, array_of, field, index_of, str_of, strs_in, strs_of};

verus! {

/// One finding: code, message and, where it applies, the JSON path.
pub type Finding = (Seq<char>, Seq<char>, Option<Seq<char>>);

#[derive(Debug)]
pub struct ValidationError {
    pub code: String,
    pub message: String,
    pub path: Option<String>,
}

#[derive(Debug)]
pub struct ValidationWarning {
    pub code: String,
    pub message: String,
    pub path: Option<String>,
}

#[derive(Debug)]
pub struct ValidationResult {
    pub valid: bool,
    pub errors: Vec<ValidationError>,
    pub warnings: Vec<ValidationWarning>,
}

pub open spec fn opt_view(p: Option<String>) -> Option<Seq<char>> {
    match p {
        Some(s) => Some(s@),
        None => None,
    }
}

pub open spec fn error_view(e: ValidationError) -> Finding {
    (e.code@, e.message@, opt_view(e.path))
}

pub open spec fn warning_view(w: ValidationWarning) -> Finding {
    (w.code@, w.message@, opt_view(w.path))
}

pub open spec fn errors_view(v: Seq<ValidationError>) -> Seq<Finding> {
    v.map_values(|e: ValidationError| error_view(e))
}

pub open spec fn warnings_view(v: Seq<ValidationWarning>) -> Seq<Finding> {
    v.map_values(|w: ValidationWarning| warning_view(w))
}

pub open spec fn digit_char(d: nat) -> char {
    if d == 0 {
        '0'
    } else if d == 1 {
        '1'
    } else if d == 2 {
        '2'
    } else if d == 3 {
        '3'
    } else if d == 4 {
        '4'
    } else if d == 5 {
        '5'
    } else if d == 6 {
        '6'
    } else if d == 7 {
        '7'
    } else if d == 8 {
        '8'
    } else {
        '9'
    }
}

/// The decimal digits of `n`.
pub open spec fn dec(n: nat) -> Seq<char>
    decreases n,
{
    if n < 10 {
        seq![digit_char(n)]
    } else {
        dec(n / 10).push(digit_char(n % 10))
    }
}

fn digit_str(d: usize) -> (r: &'static str)
    requires
        d < 10,
    ensures
        r@ == seq![digit_char(d as nat)],
{
    proof {
        reveal_strlit("0");
        reveal_strlit("1");
        reveal_strlit("2");
        reveal_strlit("3");
        reveal_strlit("4");
        reveal_strlit("5");
        reveal_strlit("6");
        reveal_strlit("7");
        reveal_strlit("8");
        reveal_strlit("9");
    }
    if d == 0 {
        "0"
    } else if d == 1 {
        "1"
    } else if d == 2 {
        "2"
    } else if d == 3 {
        "3"
    } else if d == 4 {
        "4"
    } else if d == 5 {
        "5"
    } else if d == 6 {
        "6"
    } else if d == 7 {
        "7"
    } else if d == 8 {
        "8"
    } else {
        "9"
    }
}

/// `n` in decimal.
pub fn decimal(n: usize) -> (r: String)
    ensures
        r@ == dec(n as nat),
    decreases n,
{
    if n < 10 {
        String::from_str(digit_str(n))
    } else {
        let mut s = decimal(n / 10);
        s.append(digit_str(n % 10));
        s
    }
}

fn text2(a: &str, b: &str) -> (r: String)
    ensures
        r@ == a@ + b@,
{
    let mut s = String::from_str(a);
    s.append(b);
    s
}

fn text3(a: &str, b: &str, c: &str) -> (r: String)
    ensures
        r@ == a@ + b@ + c@,
{
    let mut s = String::from_str(a);
    s.append(b);
    s.append(c);
    s
}

fn error(code: &str, message: String, path: Option<String>) -> (r: ValidationError)
    ensures
        error_view(r) == (code@, message@, opt_view(path)),
{
    ValidationError { code: String::from_str(code), message, path }
}

fn warning(code: &str, message: String) -> (r: ValidationWarning)
    ensures
        warning_view(r) == (code@, message@, None::<Seq<char>>),
{
    ValidationWarning { code: String::from_str(code), message, path: None }
}

fn push_error(errors: &mut Vec<ValidationError>, e: ValidationError)
    ensures
        errors_view(final(errors)@) == errors_view(old(errors)@).push(error_view(e)),
{
    errors.push(e);
    assert(errors_view(errors@) =~= errors_view(old(errors)@).push(error_view(e)));
}

pub open spec fn one(code: Seq<char>, message: Seq<char>, path: Seq<char>) -> Seq<Finding> {
    seq![(code, message, Some(path))]
}

pub open spec fn is_str(v: Json) -> bool {
    v is Str
}

pub open spec fn is_object(v: Json) -> bool {
    v is Object
}

pub open spec fn is_array(v: Json) -> bool {
    v is Array
}

// ---- shape ----

/// Findings for the items of `states` that are not strings.
pub open spec fn state_item_findings(items: Seq<Json>) -> Seq<Finding>
    decreases items.len(),
{
    if items.len() == 0 {
        Seq::empty()
    } else {
        let i = (items.len() - 1) as nat;
        let rest = state_item_findings(items.drop_last());
        if is_str(items.last()) {
            rest
        } else {
            rest + one(
                "INVALID_TYPE"@,
                "State at index "@ + dec(i) + " must be a string"@,
                "$.states["@ + dec(i) + "]"@,
            )
        }
    }
}

pub open spec fn states_findings(d: Json) -> Seq<Finding> {
    match field(d, "states"@) {
        None => one("MISSING_FIELD"@, "Missing required field 'states'"@, "$.states"@),
        Some(Json::Array(items)) => (if items@.len() == 0 {
            one("EMPTY_ARRAY"@, "'states' array cannot be empty"@, "$.states"@)
        } else {
            Seq::empty()
        }) + state_item_findings(items@),
        Some(_) => one("INVALID_TYPE"@, "'states' must be an array"@, "$.states"@),
    }
}

pub open spec fn initial_findings(d: Json) -> Seq<Finding> {
    match field(d, "initial"@) {
        None => one("MISSING_FIELD"@, "Missing required field 'initial'"@, "$.initial"@),
        Some(v) => if is_str(v) {
            Seq::empty()
        } else {
            one("INVALID_TYPE"@, "'initial' must be a string"@, "$.initial"@)
        },
    }
}

/// Findings for a required string member `name` of the transition at path `p`.
pub open spec fn member_findings(t: Json, p: Seq<char>, name: Seq<char>) -> Seq<Finding> {
    match field(t, name) {
        None => one(
            "MISSING_FIELD"@,
            "Transition missing required field '"@ + name + "'"@,
            p + "."@ + name,
        ),
        Some(v) => if is_str(v) {
            Seq::empty()
        } else {
            one("INVALID_TYPE"@, "'"@ + name + "' must be a string"@, p + "."@ + name)
        },
    }
}

pub open spec fn transition_path(i: nat) -> Seq<char> {
    "$.transitions["@ + dec(i) + "]"@
}

pub open spec fn transition_findings(t: Json, i: nat) -> Seq<Finding> {
    let p = transition_path(i);
    if !is_object(t) {
        one("INVALID_TYPE"@, "Transition at index "@ + dec(i) + " must be an object"@, p)
    } else {
        let from = match field(t, "from"@) {
            None => one(
                "MISSING_FIELD"@,
                "Transition missing required field 'from'"@,
                p + ".from"@,
            ),
            Some(v) => if is_str(v) || is_array(v) {
                Seq::empty()
            } else {
                one("INVALID_TYPE"@, "'from' must be a string or array of strings"@, p + ".from"@)
            },
        };
        let guard = match field(t, "guard"@) {
            Some(v) => if is_str(v) {
                Seq::empty()
            } else {
                one("INVALID_TYPE"@, "'guard' must be a string"@, p + ".guard"@)
            },
            None => Seq::empty(),
        };
        from + member_findings(t, p, "event"@) + member_findings(t, p, "to"@) + guard
    }
}

pub open spec fn transitions_item_findings(items: Seq<Json>) -> Seq<Finding>
    decreases items.len(),
{
    if items.len() == 0 {
        Seq::empty()
    } else {
        transitions_item_findings(items.drop_last()) + transition_findings(
            items.last(),
            (items.len() - 1) as nat,
        )
    }
}

pub open spec fn transitions_findings(d: Json) -> Seq<Finding> {
    match field(d, "transitions"@) {
        None => one("MISSING_FIELD"@, "Missing required field 'transitions'"@, "$.transitions"@),
        Some(Json::Array(items)) => transitions_item_findings(items@),
        Some(_) => one("INVALID_TYPE"@, "'transitions' must be an array"@, "$.transitions"@),
    }
}

/// Everything wrong with the shape of a definition.
pub open spec fn schema_findings(d: Json) -> Seq<Finding> {
    if !is_object(d) {
        one("INVALID_TYPE"@, "Definition must be a JSON object"@, "$"@)
    } else {
        states_findings(d) + initial_findings(d) + transitions_findings(d)
    }
}

fn check_state_items(items: &Vec<Json>, errors: &mut Vec<ValidationError>)
    ensures
        errors_view(final(errors)@) == errors_view(old(errors)@) + state_item_findings(items@),
{
    let ghost start = errors_view(errors@);
    let mut i: usize = 0;
    assert(start + state_item_findings(items@.subrange(0, 0)) =~= start);
    while i < items.len()
        invariant
            i <= items@.len(),
            errors_view(errors@) == start + state_item_findings(items@.subrange(0, i as int)),
        decreases items@.len() - i,
    {
        let ghost before = errors_view(errors@);
        assert(items@.subrange(0, i + 1).drop_last() =~= items@.subrange(0, i as int));
        assert(items@.subrange(0, i + 1).last() == items@[i as int]);
        match &items[i] {
            Json::Str(_) => {},
            _ => {
                let message = text3("State at index ", decimal(i).as_str(), " must be a string");
                let path = text3("$.states[", decimal(i).as_str(), "]");
                push_error(errors, error("INVALID_TYPE", message, Some(path)));
            },
        }
        assert(errors_view(errors@) =~= start + state_item_findings(items@.subrange(0, i + 1)));
        i = i + 1;
    }
    assert(items@.subrange(0, i as int) =~= items@);
}

fn check_states(d: &Json, errors: &mut Vec<ValidationError>)
    ensures
        errors_view(final(errors)@) == errors_view(old(errors)@) + states_findings(*d),
{
    let ghost start = errors_view(errors@);
    match d.get("states") {
        None => {
            push_error(
                errors,
                error(
                    "MISSING_FIELD",
                    String::from_str("Missing required field 'states'"),
                    Some(String::from_str("$.states")),
                ),
            );
        },
        Some(Json::Array(items)) => {
            if items.len() == 0 {
                push_error(
                    errors,
                    error(
                        "EMPTY_ARRAY",
                        String::from_str("'states' array cannot be empty"),
                        Some(String::from_str("$.states")),
                    ),
                );
            }
            let ghost mid = errors_view(errors@);
            check_state_items(items, errors);
            assert(errors_view(errors@) =~= start + states_findings(*d));
        },
        Some(_) => {
            push_error(
                errors,
                error(
                    "INVALID_TYPE",
                    String::from_str("'states' must be an array"),
                    Some(String::from_str("$.states")),
                ),
            );
        },
    }
}

fn check_initial(d: &Json, errors: &mut Vec<ValidationError>)
    ensures
        errors_view(final(errors)@) == errors_view(old(errors)@) + initial_findings(*d),
{
    match d.get("initial") {
        None => {
            push_error(
                errors,
                error(
                    "MISSING_FIELD",
                    String::from_str("Missing required field 'initial'"),
                    Some(String::from_str("$.initial")),
                ),
            );
        },
        Some(Json::Str(_)) => {
            assert(errors_view(errors@) =~= errors_view(old(errors)@) + initial_findings(*d));
        },
        Some(_) => {
            push_error(
                errors,
                error(
                    "INVALID_TYPE",
                    String::from_str("'initial' must be a string"),
                    Some(String::from_str("$.initial")),
                ),
            );
        },
    }
}

fn check_member(t: &Json, p: &String, name: &str, errors: &mut Vec<ValidationError>)
    ensures
        errors_view(final(errors)@) == errors_view(old(errors)@) + member_findings(*t, p@, name@),
{
    match t.get(name) {
        None => {
            let message = text3("Transition missing required field '", name, "'");
            let path = text3(p.as_str(), ".", name);
            push_error(errors, error("MISSING_FIELD", message, Some(path)));
        },
        Some(Json::Str(_)) => {
            assert(errors_view(errors@) =~= errors_view(old(errors)@) + member_findings(
                *t,
                p@,
                name@,
            ));
        },
        Some(_) => {
            let message = text3("'", name, "' must be a string");
            let path = text3(p.as_str(), ".", name);
            push_error(errors, error("INVALID_TYPE", message, Some(path)));
        },
    }
}

fn validate_transition(t: &Json, index: usize, errors: &mut Vec<ValidationError>)
    ensures
        errors_view(final(errors)@) == errors_view(old(errors)@) + transition_findings(
            *t,
            index as nat,
        ),
{
    let ghost start = errors_view(errors@);
    let p = text3("$.transitions[", decimal(index).as_str(), "]");
    match t {
        Json::Object(_) => {},
        _ => {
            let message = text3("Transition at index ", decimal(index).as_str(), " must be an object");
            push_error(errors, error("INVALID_TYPE", message, Some(p)));
            return;
        },
    }
    match t.get("from") {
        None => {
            push_error(
                errors,
                error(
                    "MISSING_FIELD",
                    String::from_str("Transition missing required field 'from'"),
                    Some(text2(p.as_str(), ".from")),
                ),
            );
        },
        Some(Json::Str(_)) | Some(Json::Array(_)) => {},
        Some(_) => {
            push_error(
                errors,
                error(
                    "INVALID_TYPE",
                    String::from_str("'from' must be a string or array of strings"),
                    Some(text2(p.as_str(), ".from")),
                ),
            );
        },
    }
    let ghost a = errors_view(errors@);
    check_member(t, &p, "event", errors);
    let ghost b = errors_view(errors@);
    check_member(t, &p, "to", errors);
    let ghost c = errors_view(errors@);
    match t.get("guard") {
        Some(Json::Str(_)) | None => {},
        Some(_) => {
            push_error(
                errors,
                error(
                    "INVALID_TYPE",
                    String::from_str("'guard' must be a string"),
                    Some(text2(p.as_str(), ".guard")),
                ),
            );
        },
    }
    assert(errors_view(errors@) =~= start + transition_findings(*t, index as nat));
}

fn check_transitions(d: &Json, errors: &mut Vec<ValidationError>)
    ensures
        errors_view(final(errors)@) == errors_view(old(errors)@) + transitions_findings(*d),
{
    let ghost start = errors_view(errors@);
    match d.get("transitions") {
        None => {
            push_error(
                errors,
                error(
                    "MISSING_FIELD",
                    String::from_str("Missing required field 'transitions'"),
                    Some(String::from_str("$.transitions")),
                ),
            );
        },
        Some(Json::Array(items)) => {
            let mut i: usize = 0;
            assert(start + transitions_item_findings(items@.subrange(0, 0)) =~= start);
            while i < items.len()
                invariant
                    i <= items@.len(),
                    errors_view(errors@) == start + transitions_item_findings(
                        items@.subrange(0, i as int),
                    ),
                decreases items@.len() - i,
            {
                assert(items@.subrange(0, i + 1).drop_last() =~= items@.subrange(0, i as int));
                assert(items@.subrange(0, i + 1).last() == items@[i as int]);
                validate_transition(&items[i], i, errors);
                assert(errors_view(errors@) =~= start + transitions_item_findings(
                    items@.subrange(0, i + 1),
                ));
                i = i + 1;
            }
            assert(items@.subrange(0, i as int) =~= items@);
        },
        Some(_) => {
            push_error(
                errors,
                error(
                    "INVALID_TYPE",
                    String::from_str("'transitions' must be an array"),
                    Some(String::from_str("$.transitions")),
                ),
            );
        },
    }
}

fn validate_schema(d: &Json, errors: &mut Vec<ValidationError>)
    ensures
        errors_view(final(errors)@) == errors_view(old(errors)@) + schema_findings(*d),
{
    let ghost start = errors_view(errors@);
    match d {
        Json::Object(_) => {},
        _ => {
            push_error(
                errors,
                error(
                    "INVALID_TYPE",
                    String::from_str("Definition must be a JSON object"),
                    Some(String::from_str("$")),
                ),
            );
            return;
        },
    }
    check_states(d, errors);
    check_initial(d, errors);
    check_transitions(d, errors);
    assert(errors_view(errors@) =~= start + schema_findings(*d));
}

// ---- meaning ----

/// The texts of a sequence of strings.
pub open spec fn views(v: Seq<String>) -> Seq<Seq<char>> {
    v.map_values(|t: String| t@)
}

/// The string items of `states`, in order.
pub open spec fn declared_states(d: Json) -> Seq<Seq<char>> {
    match array_of(index_of(d, "states"@)) {
        Some(items) => strs_of(items),
        None => Seq::empty(),
    }
}

pub open spec fn transitions_of(d: Json) -> Seq<Json> {
    match array_of(index_of(d, "transitions"@)) {
        Some(items) => items,
        None => Seq::empty(),
    }
}

/// The states a transition leaves from: one string, or the strings of an array.
pub open spec fn from_states(t: Json) -> Seq<Seq<char>> {
    match str_of(index_of(t, "from"@)) {
        Some(f) => seq![f],
        None => match array_of(index_of(t, "from"@)) {
            Some(items) => strs_of(items),
            None => Seq::empty(),
        },
    }
}

pub open spec fn to_state(t: Json) -> Seq<Seq<char>> {
    match str_of(index_of(t, "to"@)) {
        Some(x) => seq![x],
        None => Seq::empty(),
    }
}

pub open spec fn initial_of(d: Json) -> Seq<char> {
    match str_of(index_of(d, "initial"@)) {
        Some(x) => x,
        None => Seq::empty(),
    }
}

pub open spec fn initial_state_findings(d: Json, states: Seq<Seq<char>>) -> Seq<Finding> {
    match str_of(index_of(d, "initial"@)) {
        Some(x) => if states.contains(x) {
            Seq::empty()
        } else {
            one("INVALID_INITIAL_STATE"@, "Initial state '"@ + x + "' not in states list"@, "$.initial"@)
        },
        None => Seq::empty(),
    }
}

pub open spec fn from_findings(fs: Seq<Seq<char>>, states: Seq<Seq<char>>, i: nat) -> Seq<Finding>
    decreases fs.len(),
{
    if fs.len() == 0 {
        Seq::empty()
    } else {
        let f = fs.last();
        from_findings(fs.drop_last(), states, i) + if states.contains(f) {
            Seq::empty()
        } else {
            one(
                "INVALID_STATE"@,
                "Transition 'from' state '"@ + f + "' not in states list"@,
                transition_path(i) + ".from"@,
            )
        }
    }
}

pub open spec fn to_findings(t: Json, states: Seq<Seq<char>>, i: nat) -> Seq<Finding> {
    match str_of(index_of(t, "to"@)) {
        Some(x) => if states.contains(x) {
            Seq::empty()
        } else {
            one(
                "INVALID_STATE"@,
                "Transition 'to' state '"@ + x + "' not in states list"@,
                transition_path(i) + ".to"@,
            )
        },
        None => Seq::empty(),
    }
}

/// Findings for transitions that name undeclared states.
pub open spec fn reference_findings(ts: Seq<Json>, states: Seq<Seq<char>>) -> Seq<Finding>
    decreases ts.len(),
{
    if ts.len() == 0 {
        Seq::empty()
    } else {
        let i = (ts.len() - 1) as nat;
        reference_findings(ts.drop_last(), states) + from_findings(from_states(ts.last()), states, i)
            + to_findings(ts.last(), states, i)
    }
}

/// Every `to` state, in order of the transitions.
pub open spec fn incoming_of(ts: Seq<Json>) -> Seq<Seq<char>>
    decreases ts.len(),
{
    if ts.len() == 0 {
        Seq::empty()
    } else {
        incoming_of(ts.drop_last()) + to_state(ts.last())
    }
}

/// Every `from` state, in order of the transitions.
pub open spec fn outgoing_of(ts: Seq<Json>) -> Seq<Seq<char>>
    decreases ts.len(),
{
    if ts.len() == 0 {
        Seq::empty()
    } else {
        outgoing_of(ts.drop_last()) + from_states(ts.last())
    }
}

/// Findings for string items of `states` that repeat an earlier one.
pub open spec fn duplicate_findings(items: Seq<Json>) -> Seq<Finding>
    decreases items.len(),
{
    if items.len() == 0 {
        Seq::empty()
    } else {
        let i = (items.len() - 1) as nat;
        let rest = duplicate_findings(items.drop_last());
        match str_of(items.last()) {
            Some(x) => if strs_of(items.drop_last()).contains(x) {
                rest + one("DUPLICATE_STATE"@, "Duplicate state '"@ + x + "'"@, "$.states["@ + dec(i) + "]"@)
            } else {
                rest
            },
            None => rest,
        }
    }
}

pub open spec fn states_duplicate_findings(d: Json) -> Seq<Finding> {
    match array_of(index_of(d, "states"@)) {
        Some(items) => duplicate_findings(items),
        None => Seq::empty(),
    }
}

/// The errors of meaning of a well-shaped definition.
pub open spec fn semantic_errors(d: Json) -> Seq<Finding> {
    let states = declared_states(d);
    initial_state_findings(d, states) + reference_findings(transitions_of(d), states)
        + states_duplicate_findings(d)
}

/// `s` without repetitions, each kept where it first occurs.
pub open spec fn distinct(s: Seq<Seq<char>>) -> Seq<Seq<char>>
    decreases s.len(),
{
    if s.len() == 0 {
        Seq::empty()
    } else {
        let rest = distinct(s.drop_last());
        if rest.contains(s.last()) {
            rest
        } else {
            rest.push(s.last())
        }
    }
}

pub open spec fn unreachable_findings(
    ds: Seq<Seq<char>>,
    initial: Seq<char>,
    incoming: Seq<Seq<char>>,
) -> Seq<Finding>
    decreases ds.len(),
{
    if ds.len() == 0 {
        Seq::empty()
    } else {
        let x = ds.last();
        let rest = unreachable_findings(ds.drop_last(), initial, incoming);
        if x != initial && !incoming.contains(x) {
            rest.push(
                ("UNREACHABLE_STATE"@, "State '"@ + x + "' has no incoming transitions"@, None),
            )
        } else {
            rest
        }
    }
}

pub open spec fn dead_end_findings(ds: Seq<Seq<char>>, outgoing: Seq<Seq<char>>) -> Seq<Finding>
    decreases ds.len(),
{
    if ds.len() == 0 {
        Seq::empty()
    } else {
        let x = ds.last();
        let rest = dead_end_findings(ds.drop_last(), outgoing);
        if !outgoing.contains(x) {
            rest.push(
                (
                    "DEAD_END_STATE"@,
                    "State '"@ + x + "' has no outgoing transitions (terminal state)"@,
                    None,
                ),
            )
        } else {
            rest
        }
    }
}

/// The warnings for a well-shaped definition: each declared state (once, in
/// order of first declaration) that no transition enters and that is not
/// initial; then each that no transition leaves.
pub open spec fn semantic_warnings(d: Json) -> Seq<Finding> {
    let ds = distinct(declared_states(d));
    let ts = transitions_of(d);
    unreachable_findings(ds, initial_of(d), incoming_of(ts)) + dead_end_findings(
        ds,
        outgoing_of(ts),
    )
}

fn contains_str(v: &Vec<String>, s: &str) -> (r: bool)
    ensures
        r == views(v@).contains(s@),
{
    let mut i: usize = 0;
    while i < v.len()
        invariant
            i <= v@.len(),
            forall|k: int| 0 <= k < i ==> v@[k]@ != s@,
        decreases v@.len() - i,
    {
        if same_text(v[i].as_str(), s) {
            assert(views(v@)[i as int] == s@);
            return true;
        }
        i = i + 1;
    }
    assert forall|k: int| 0 <= k < views(v@).len() implies views(v@)[k] != s@ by {}
    false
}

fn push_text(v: &mut Vec<String>, s: &String)
    ensures
        views(final(v)@) == views(old(v)@).push(s@),
{
    v.push(s.clone());
    assert(views(v@) =~= views(old(v)@).push(s@));
}

fn append_texts(dst: &mut Vec<String>, src: &Vec<String>)
    ensures
        views(final(dst)@) == views(old(dst)@) + views(src@),
{
    let ghost start = views(dst@);
    let mut i: usize = 0;
    while i < src.len()
        invariant
            i <= src@.len(),
            views(dst@) == start + views(src@).subrange(0, i as int),
        decreases src@.len() - i,
    {
        push_text(dst, &src[i]);
        assert(views(dst@) =~= start + views(src@).subrange(0, i + 1));
        i = i + 1;
    }
    assert(views(src@).subrange(0, i as int) =~= views(src@));
}

fn string_items(items: &Vec<Json>) -> (r: Vec<String>)
    ensures
        views(r@) == strs_of(items@),
{
    let r = strs_in(items);
    assert(views(r@) =~= r@.map_values(|t: String| t@));
    r
}

fn from_list(t: &Json) -> (r: Vec<String>)
    ensures
        views(r@) == from_states(*t),
{
    match t.get("from") {
        Some(Json::Str(f)) => {
            let mut r: Vec<String> = Vec::new();
            push_text(&mut r, f);
            assert(views(r@) =~= seq![f@]);
            r
        },
        Some(Json::Array(items)) => string_items(items),
        _ => {
            let r: Vec<String> = Vec::new();
            assert(views(r@) =~= Seq::<Seq<char>>::empty());
            r
        },
    }
}

fn check_from_states(
    fs: &Vec<String>,
    states: &Vec<String>,
    i: usize,
    errors: &mut Vec<ValidationError>,
)
    ensures
        errors_view(final(errors)@) == errors_view(old(errors)@) + from_findings(
            views(fs@),
            views(states@),
            i as nat,
        ),
{
    let ghost start = errors_view(errors@);
    let ghost fv = views(fs@);
    let mut k: usize = 0;
    assert(start + from_findings(fv.subrange(0, 0), views(states@), i as nat) =~= start);
    while k < fs.len()
        invariant
            k <= fs@.len(),
            fv == views(fs@),
            errors_view(errors@) == start + from_findings(fv.subrange(0, k as int), views(states@), i as nat),
        decreases fs@.len() - k,
    {
        assert(fv.subrange(0, k + 1).drop_last() =~= fv.subrange(0, k as int));
        assert(fv.subrange(0, k + 1).last() == fs@[k as int]@);
        if !contains_str(states, fs[k].as_str()) {
            let message = text3("Transition 'from' state '", fs[k].as_str(), "' not in states list");
            let p = text3("$.transitions[", decimal(i).as_str(), "]");
            push_error(errors, error("INVALID_STATE", message, Some(text2(p.as_str(), ".from"))));
        }
        assert(errors_view(errors@) =~= start + from_findings(fv.subrange(0, k + 1), views(states@), i as nat));
        k = k + 1;
    }
    assert(fv.subrange(0, k as int) =~= fv);
}

fn check_references(
    ts: &Vec<Json>,
    states: &Vec<String>,
    errors: &mut Vec<ValidationError>,
    incoming: &mut Vec<String>,
    outgoing: &mut Vec<String>,
)
    requires
        views(old(incoming)@) == Seq::<Seq<char>>::empty(),
        views(old(outgoing)@) == Seq::<Seq<char>>::empty(),
    ensures
        errors_view(final(errors)@) == errors_view(old(errors)@) + reference_findings(
            ts@,
            views(states@),
        ),
        views(final(incoming)@) == incoming_of(ts@),
        views(final(outgoing)@) == outgoing_of(ts@),
{
    let ghost start = errors_view(errors@);
    let ghost sv = views(states@);
    let mut i: usize = 0;
    assert(start + reference_findings(ts@.subrange(0, 0), sv) =~= start);
    assert(ts@.subrange(0, 0) =~= Seq::<Json>::empty());
    while i < ts.len()
        invariant
            i <= ts@.len(),
            sv == views(states@),
            errors_view(errors@) == start + reference_findings(ts@.subrange(0, i as int), sv),
            views(incoming@) == incoming_of(ts@.subrange(0, i as int)),
            views(outgoing@) == outgoing_of(ts@.subrange(0, i as int)),
        decreases ts@.len() - i,
    {
        let ghost sub = ts@.subrange(0, i + 1);
        assert(sub.drop_last() =~= ts@.subrange(0, i as int));
        assert(sub.last() == ts@[i as int]);
        let t = &ts[i];
        let fs = from_list(t);
        check_from_states(&fs, states, i, errors);
        let ghost mid = errors_view(errors@);
        match t.get("to") {
            Some(Json::Str(x)) => {
                if !contains_str(states, x.as_str()) {
                    let message = text3("Transition 'to' state '", x.as_str(), "' not in states list");
                    let p = text3("$.transitions[", decimal(i).as_str(), "]");
                    push_error(errors, error("INVALID_STATE", message, Some(text2(p.as_str(), ".to"))));
                }
                push_text(incoming, x);
                assert(views(incoming@) =~= incoming_of(sub));
            },
            _ => {
                assert(views(incoming@) =~= incoming_of(sub));
            },
        }
        append_texts(outgoing, &fs);
        assert(errors_view(errors@) =~= start + reference_findings(sub, sv));
        i = i + 1;
    }
    assert(ts@.subrange(0, i as int) =~= ts@);
}

fn check_duplicates(items: &Vec<Json>, errors: &mut Vec<ValidationError>)
    ensures
        errors_view(final(errors)@) == errors_view(old(errors)@) + duplicate_findings(items@),
{
    let ghost start = errors_view(errors@);
    let mut seen: Vec<String> = Vec::new();
    let mut i: usize = 0;
    assert(start + duplicate_findings(items@.subrange(0, 0)) =~= start);
    assert(views(seen@) =~= strs_of(items@.subrange(0, 0)));
    while i < items.len()
        invariant
            i <= items@.len(),
            errors_view(errors@) == start + duplicate_findings(items@.subrange(0, i as int)),
            views(seen@) == strs_of(items@.subrange(0, i as int)),
        decreases items@.len() - i,
    {
        let ghost sub = items@.subrange(0, i + 1);
        assert(sub.drop_last() =~= items@.subrange(0, i as int));
        assert(sub.last() == items@[i as int]);
        match &items[i] {
            Json::Str(x) => {
                if contains_str(&seen, x.as_str()) {
                    let message = text3("Duplicate state '", x.as_str(), "'");
                    let path = text3("$.states[", decimal(i).as_str(), "]");
                    push_error(errors, error("DUPLICATE_STATE", message, Some(path)));
                }
                push_text(&mut seen, x);
            },
            _ => {},
        }
        assert(errors_view(errors@) =~= start + duplicate_findings(sub));
        i = i + 1;
    }
    assert(items@.subrange(0, i as int) =~= items@);
}

fn distinct_texts(v: &Vec<String>) -> (r: Vec<String>)
    ensures
        views(r@) == distinct(views(v@)),
{
    let ghost vv = views(v@);
    let mut r: Vec<String> = Vec::new();
    let mut i: usize = 0;
    assert(views(r@) =~= distinct(vv.subrange(0, 0)));
    while i < v.len()
        invariant
            i <= v@.len(),
            vv == views(v@),
            views(r@) == distinct(vv.subrange(0, i as int)),
        decreases v@.len() - i,
    {
        assert(vv.subrange(0, i + 1).drop_last() =~= vv.subrange(0, i as int));
        assert(vv.subrange(0, i + 1).last() == v@[i as int]@);
        if !contains_str(&r, v[i].as_str()) {
            push_text(&mut r, &v[i]);
        }
        i = i + 1;
    }
    assert(vv.subrange(0, i as int) =~= vv);
    r
}

fn push_warning(warnings: &mut Vec<ValidationWarning>, w: ValidationWarning)
    ensures
        warnings_view(final(warnings)@) == warnings_view(old(warnings)@).push(warning_view(w)),
{
    warnings.push(w);
    assert(warnings_view(warnings@) =~= warnings_view(old(warnings)@).push(warning_view(w)));
}

fn warn_unreachable(
    ds: &Vec<String>,
    initial: &String,
    incoming: &Vec<String>,
    warnings: &mut Vec<ValidationWarning>,
)
    ensures
        warnings_view(final(warnings)@) == warnings_view(old(warnings)@) + unreachable_findings(
            views(ds@),
            initial@,
            views(incoming@),
        ),
{
    let ghost start = warnings_view(warnings@);
    let ghost dv = views(ds@);
    let mut i: usize = 0;
    assert(start + unreachable_findings(dv.subrange(0, 0), initial@, views(incoming@)) =~= start);
    while i < ds.len()
        invariant
            i <= ds@.len(),
            dv == views(ds@),
            warnings_view(warnings@) == start + unreachable_findings(
                dv.subrange(0, i as int),
                initial@,
                views(incoming@),
            ),
        decreases ds@.len() - i,
    {
        assert(dv.subrange(0, i + 1).drop_last() =~= dv.subrange(0, i as int));
        assert(dv.subrange(0, i + 1).last() == ds@[i as int]@);
        let x = ds[i].as_str();
        if !same_text(x, initial.as_str()) && !contains_str(incoming, x) {
            let message = text3("State '", x, "' has no incoming transitions");
            push_warning(warnings, warning("UNREACHABLE_STATE", message));
        }
        assert(warnings_view(warnings@) =~= start + unreachable_findings(
            dv.subrange(0, i + 1),
            initial@,
            views(incoming@),
        ));
        i = i + 1;
    }
    assert(dv.subrange(0, i as int) =~= dv);
}

fn warn_dead_ends(ds: &Vec<String>, outgoing: &Vec<String>, warnings: &mut Vec<ValidationWarning>)
    ensures
        warnings_view(final(warnings)@) == warnings_view(old(warnings)@) + dead_end_findings(
            views(ds@),
            views(outgoing@),
        ),
{
    let ghost start = warnings_view(warnings@);
    let ghost dv = views(ds@);
    let mut i: usize = 0;
    assert(start + dead_end_findings(dv.subrange(0, 0), views(outgoing@)) =~= start);
    while i < ds.len()
        invariant
            i <= ds@.len(),
            dv == views(ds@),
            warnings_view(warnings@) == start + dead_end_findings(
                dv.subrange(0, i as int),
                views(outgoing@),
            ),
        decreases ds@.len() - i,
    {
        assert(dv.subrange(0, i + 1).drop_last() =~= dv.subrange(0, i as int));
        assert(dv.subrange(0, i + 1).last() == ds@[i as int]@);
        let x = ds[i].as_str();
        if !contains_str(outgoing, x) {
            let message = text3("State '", x, "' has no outgoing transitions (terminal state)");
            push_warning(warnings, warning("DEAD_END_STATE", message));
        }
        assert(warnings_view(warnings@) =~= start + dead_end_findings(
            dv.subrange(0, i + 1),
            views(outgoing@),
        ));
        i = i + 1;
    }
    assert(dv.subrange(0, i as int) =~= dv);
}

fn validate_semantics(
    d: &Json,
    errors: &mut Vec<ValidationError>,
    warnings: &mut Vec<ValidationWarning>,
)
    ensures
        errors_view(final(errors)@) == errors_view(old(errors)@) + semantic_errors(*d),
        warnings_view(final(warnings)@) == warnings_view(old(warnings)@) + semantic_warnings(*d),
{
    let ghost start = errors_view(errors@);
    let ghost wstart = warnings_view(warnings@);
    let no_items: Vec<Json> = Vec::new();
    let state_items: &Vec<Json> = match d.get("states") {
        Some(Json::Array(items)) => items,
        _ => &no_items,
    };
    assert(state_items@ == match array_of(index_of(*d, "states"@)) {
        Some(items) => items,
        None => Seq::<Json>::empty(),
    });
    let states = string_items(state_items);
    assert(views(states@) == declared_states(*d));

    match d.get("initial") {
        Some(Json::Str(x)) => {
            if !contains_str(&states, x.as_str()) {
                let message = text3("Initial state '", x.as_str(), "' not in states list");
                push_error(errors, error("INVALID_INITIAL_STATE", message, Some(String::from_str("$.initial"))));
            }
        },
        _ => {},
    }
    assert(errors_view(errors@) =~= start + initial_state_findings(*d, views(states@)));
    let ghost after_initial = errors_view(errors@);

    let no_transitions: Vec<Json> = Vec::new();
    let ts: &Vec<Json> = match d.get("transitions") {
        Some(Json::Array(items)) => items,
        _ => &no_transitions,
    };
    assert(ts@ == transitions_of(*d));
    let mut incoming: Vec<String> = Vec::new();
    let mut outgoing: Vec<String> = Vec::new();
    assert(views(incoming@) =~= Seq::<Seq<char>>::empty());
    assert(views(outgoing@) =~= Seq::<Seq<char>>::empty());
    check_references(ts, &states, errors, &mut incoming, &mut outgoing);
    let ghost after_refs = errors_view(errors@);

    check_duplicates(state_items, errors);
    assert(errors_view(errors@) =~= start + semantic_errors(*d));

    let initial = match d.get("initial") {
        Some(Json::Str(x)) => x.clone(),
        _ => String::new(),
    };
    assert(initial@ == initial_of(*d));
    let ds = distinct_texts(&states);
    warn_unreachable(&ds, &initial, &incoming, warnings);
    warn_dead_ends(&ds, &outgoing, warnings);
    assert(warnings_view(warnings@) =~= wstart + semantic_warnings(*d));
}

/// The findings for a definition: the errors of its shape, or, where its
/// shape is sound, the errors and warnings of its meaning. It is valid when
/// there are no errors.
pub open spec fn findings_of(d: Json) -> (Seq<Finding>, Seq<Finding>) {
    if schema_findings(d).len() > 0 {
        (schema_findings(d), Seq::empty())
    } else {
        (semantic_errors(d), semantic_warnings(d))
    }
}

/// Validates a state machine definition.
pub fn validate_definition(definition: &Json) -> (r: ValidationResult)
    ensures
        errors_view(r.errors@) == findings_of(*definition).0,
        warnings_view(r.warnings@) == findings_of(*definition).1,
        r.valid == (r.errors@.len() == 0),
{
    let mut errors: Vec<ValidationError> = Vec::new();
    let mut warnings: Vec<ValidationWarning> = Vec::new();
    assert(errors_view(errors@) =~= Seq::<Finding>::empty());
    assert(warnings_view(warnings@) =~= Seq::<Finding>::empty());
    validate_schema(definition, &mut errors);
    assert(errors_view(errors@) =~= schema_findings(*definition));
    if errors.len() == 0 {
        validate_semantics(definition, &mut errors, &mut warnings);
        assert(errors_view(errors@) =~= semantic_errors(*definition));
        assert(warnings_view(warnings@) =~= semantic_warnings(*definition));
    }
    let valid = errors.len() == 0;
    ValidationResult { valid, errors, warnings }
}

} // verus!
