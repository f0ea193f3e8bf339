//! Validator: applies every declared field rule to a decoded registration
//! payload and returns the complete, ordered sequence of violations, and
//! aggregates violation messages into a single user-facing string.

use vstd::prelude::*;
use crate::schema::{
    Register, FieldName, FieldRule, FieldRuleModel, rule_accepts, spec_field_rules, field_rules,
    spec_username_message, spec_password_message, USERNAME_MAX_LEN, PASSWORD_MIN_LEN,
};

verus! {

/// A single constraint failure: the field it concerns and its fixed message.
pub struct Violation {
    pub field: FieldName,
    pub message: String,
}

/// The mathematical content of a [`Violation`].
pub struct ViolationModel {
    pub field: FieldName,
    pub message: Seq<char>,
}

impl View for Violation {
    type V = ViolationModel;

    open spec fn view(&self) -> ViolationModel {
        ViolationModel { field: self.field, message: self.message@ }
    }
}

/// The username is acceptable: at most [`USERNAME_MAX_LEN`] characters.
pub open spec fn username_valid(username: Seq<char>) -> bool {
    username.len() <= USERNAME_MAX_LEN
}

/// The password is acceptable: at least [`PASSWORD_MIN_LEN`] characters.
pub open spec fn password_valid(password: Seq<char>) -> bool {
    password.len() >= PASSWORD_MIN_LEN
}

/// The whole payload is acceptable.
pub open spec fn spec_accepted(username: Seq<char>, password: Seq<char>) -> bool {
    username_valid(username) && password_valid(password)
}

/// The value that a rule for field `f` is checked against.
pub open spec fn rule_value(f: FieldName, username: Seq<char>, password: Seq<char>) -> Seq<char> {
    match f {
        FieldName::Username => username,
        FieldName::Password => password,
    }
}

/// The violation reported when a rule is not met.
pub open spec fn violation_of(rule: FieldRuleModel) -> ViolationModel {
    ViolationModel { field: rule.field, message: rule.message }
}

/// What one rule contributes to the violation sequence.
pub open spec fn rule_step(
    rule: FieldRuleModel,
    username: Seq<char>,
    password: Seq<char>,
) -> Seq<ViolationModel> {
    if rule_accepts(rule, rule_value(rule.field, username, password)) {
        Seq::empty()
    } else {
        seq![violation_of(rule)]
    }
}

/// The violations produced by checking the given rules in order against the
/// payload: every unmet rule contributes its violation, in rule order.
pub open spec fn spec_rules_violations(
    rules: Seq<FieldRuleModel>,
    username: Seq<char>,
    password: Seq<char>,
) -> Seq<ViolationModel>
    decreases rules.len(),
{
    if rules.len() == 0 {
        Seq::empty()
    } else {
        rule_step(rules.first(), username, password) + spec_rules_violations(
            rules.drop_first(),
            username,
            password,
        )
    }
}

/// The violation sequence for a payload, in field declaration order:
/// a username violation (if any) first, then a password violation (if any).
pub open spec fn spec_violations(username: Seq<char>, password: Seq<char>) -> Seq<ViolationModel> {
    let u_violation = ViolationModel {
        field: FieldName::Username,
        message: spec_username_message(),
    };
    let p_violation = ViolationModel {
        field: FieldName::Password,
        message: spec_password_message(),
    };
    if !username_valid(username) && !password_valid(password) {
        seq![u_violation, p_violation]
    } else if !username_valid(username) {
        seq![u_violation]
    } else if !password_valid(password) {
        seq![p_violation]
    } else {
        Seq::<ViolationModel>::empty()
    }
}

/// Checking the rules one after another is the same as checking all but the
/// last and then the last.
proof fn lemma_rules_violations_snoc(
    rules: Seq<FieldRuleModel>,
    username: Seq<char>,
    password: Seq<char>,
)
    requires
        rules.len() >= 1,
    ensures
        spec_rules_violations(rules, username, password) == spec_rules_violations(
            rules.drop_last(),
            username,
            password,
        ) + rule_step(rules.last(), username, password),
    decreases rules.len(),
{
    if rules.len() == 1 {
        assert(rules.drop_first().len() == 0);
        assert(rules.drop_last().len() == 0);
        assert(rules.first() == rules.last());
        let s = rule_step(rules.last(), username, password);
        assert(spec_rules_violations(rules.drop_first(), username, password)
            == Seq::<ViolationModel>::empty());
        assert(spec_rules_violations(rules.drop_last(), username, password)
            == Seq::<ViolationModel>::empty());
        assert(spec_rules_violations(rules, username, password) == s
            + Seq::<ViolationModel>::empty());
        assert(s + Seq::<ViolationModel>::empty() =~= Seq::<ViolationModel>::empty() + s);
    } else {
        lemma_rules_violations_snoc(rules.drop_first(), username, password);
        assert(rules.drop_first().drop_last() =~= rules.drop_last().drop_first());
        assert(rules.drop_first().last() == rules.last());
        assert(rules.drop_last().len() >= 1);
        assert(rules.drop_last().first() == rules.first());
        let s1 = rule_step(rules.first(), username, password);
        let s2 = rule_step(rules.last(), username, password);
        let mid = spec_rules_violations(rules.drop_last().drop_first(), username, password);
        assert(spec_rules_violations(rules.drop_first(), username, password) == mid + s2);
        assert(spec_rules_violations(rules.drop_last(), username, password) == s1 + mid);
        assert(spec_rules_violations(rules, username, password) == s1 + (mid + s2));
        assert(s1 + (mid + s2) =~= (s1 + mid) + s2);
    }
}

/// The declared rules, checked in order, produce exactly the violation
/// sequence in field declaration order: the validator and the published
/// schema can never drift apart.
pub proof fn lemma_rules_match_declared_order(username: Seq<char>, password: Seq<char>)
    ensures
        spec_rules_violations(spec_field_rules(), username, password) == spec_violations(
            username,
            password,
        ),
{
    let rules = spec_field_rules();
    let r0 = rules[0];
    let r1 = rules[1];
    let tail = rules.drop_first();
    assert(rules.first() == r0);
    assert(tail.len() == 1 && tail.first() == r1);
    assert(tail.drop_first().len() == 0);
    assert(spec_rules_violations(tail.drop_first(), username, password)
        == Seq::<ViolationModel>::empty());
    let s0 = rule_step(r0, username, password);
    let s1 = rule_step(r1, username, password);
    assert(spec_rules_violations(tail, username, password) == s1
        + Seq::<ViolationModel>::empty());
    assert(spec_rules_violations(rules, username, password) == s0 + (s1
        + Seq::<ViolationModel>::empty()));
    assert(rule_value(r0.field, username, password) == username);
    assert(rule_value(r1.field, username, password) == password);
    assert(rule_accepts(r0, username) == username_valid(username));
    assert(rule_accepts(r1, password) == password_valid(password));
    assert(violation_of(r0) == ViolationModel {
        field: FieldName::Username,
        message: spec_username_message(),
    });
    assert(violation_of(r1) == ViolationModel {
        field: FieldName::Password,
        message: spec_password_message(),
    });
    assert(s0 + (s1 + Seq::<ViolationModel>::empty()) =~= spec_violations(username, password));
}

/// A payload is accepted (produces no violations) exactly when every
/// declared rule accepts the value of the field it constrains.
pub proof fn lemma_accepted_iff_all_rules_met(username: Seq<char>, password: Seq<char>)
    ensures
        spec_accepted(username, password) <==> (forall|i: int|
            0 <= i < spec_field_rules().len() ==> rule_accepts(
                #[trigger] spec_field_rules()[i],
                rule_value(spec_field_rules()[i].field, username, password),
            )),
        spec_accepted(username, password) <==> spec_violations(username, password).len() == 0,
{
    let rules = spec_field_rules();
    assert(rule_accepts(rules[0], rule_value(rules[0].field, username, password))
        == username_valid(username));
    assert(rule_accepts(rules[1], rule_value(rules[1].field, username, password))
        == password_valid(password));
}

/// Does the value meet the rule's length bounds? Length is measured in
/// characters of the decoded string, not in bytes.
fn rule_check(rule: &FieldRule, value: &str) -> (ok: bool)
    ensures
        ok == rule_accepts(rule@, value@),
{
    let len = value.unicode_len();
    let min_ok = match rule.min_len {
        Some(m) => len >= m,
        None => true,
    };
    let max_ok = match rule.max_len {
        Some(m) => len <= m,
        None => true,
    };
    min_ok && max_ok
}

/// Apply every declared rule to the payload and return the complete
/// sequence of violations, in field declaration order. An empty result
/// means the payload is accepted.
pub fn validate(input: &Register) -> (violations: Vec<Violation>)
    ensures
        violations@.map_values(|v: Violation| v@) == spec_violations(
            input.username@,
            input.password@,
        ),
{
    let ghost u = input.username@;
    let ghost p = input.password@;
    let rules = field_rules();
    let mut violations: Vec<Violation> = Vec::new();
    let mut i: usize = 0;
    while i < rules.len()
        invariant
            i <= rules@.len(),
            rules@.len() == spec_field_rules().len(),
            forall|j: int| 0 <= j < rules@.len() ==> rules@[j]@ == spec_field_rules()[j],
            violations@.map_values(|v: Violation| v@) == spec_rules_violations(
                spec_field_rules().take(i as int),
                u,
                p,
            ),
            u == input.username@,
            p == input.password@,
        decreases rules@.len() - i,
    {
        let rule = &rules[i];
        let value = match rule.field {
            FieldName::Username => input.username.as_str(),
            FieldName::Password => input.password.as_str(),
        };
        assert(value@ == rule_value(rule@.field, u, p));
        if !rule_check(rule, value) {
            violations.push(Violation { field: rule.field, message: rule.message.clone() });
        }
        proof {
            let models = spec_field_rules();
            assert(models.take(i + 1).drop_last() =~= models.take(i as int));
            assert(models.take(i + 1).last() == models[i as int]);
            lemma_rules_violations_snoc(models.take(i + 1), u, p);
            assert(violations@.map_values(|v: Violation| v@) =~= spec_rules_violations(
                models.take(i + 1),
                u,
                p,
            ));
        }
        i += 1;
    }
    proof {
        assert(spec_field_rules().take(rules@.len() as int) =~= spec_field_rules());
        lemma_rules_match_declared_order(u, p);
    }
    violations
}

/// The separator between violation messages in the aggregated message.
pub open spec fn spec_separator() -> Seq<char> {
    ", "@
}

/// Messages joined with the separator, in order: the aggregation policy for
/// the user-facing error message.
pub open spec fn spec_joined(messages: Seq<Seq<char>>) -> Seq<char>
    decreases messages.len(),
{
    if messages.len() == 0 {
        Seq::empty()
    } else if messages.len() == 1 {
        messages.first()
    } else {
        messages.first() + spec_separator() + spec_joined(messages.drop_first())
    }
}

/// Joining messages one after another is the same as joining all but the
/// last and then appending the separator and the last.
pub proof fn lemma_joined_snoc(messages: Seq<Seq<char>>)
    requires
        messages.len() >= 2,
    ensures
        spec_joined(messages) == spec_joined(messages.drop_last()) + spec_separator()
            + messages.last(),
    decreases messages.len(),
{
    if messages.len() == 2 {
        assert(messages.drop_first().len() == 1);
        assert(messages.drop_first().first() == messages.last());
        assert(messages.drop_last().len() == 1);
        assert(messages.drop_last().first() == messages.first());
        assert(spec_joined(messages.drop_first()) == messages.last());
        assert(spec_joined(messages.drop_last()) == messages.first());
        assert(spec_joined(messages) == messages.first() + spec_separator() + messages.last());
    } else {
        lemma_joined_snoc(messages.drop_first());
        assert(messages.drop_first().drop_last() =~= messages.drop_last().drop_first());
        assert(messages.drop_first().last() == messages.last());
        assert(messages.drop_last().len() >= 2);
        assert(messages.drop_last().first() == messages.first());
        let mid = spec_joined(messages.drop_last().drop_first());
        assert(spec_joined(messages.drop_first()) == mid + spec_separator() + messages.last());
        assert(spec_joined(messages.drop_last()) == messages.first() + spec_separator() + mid);
        assert(spec_joined(messages) == messages.first() + spec_separator() + (mid
            + spec_separator() + messages.last()));
        assert(messages.first() + spec_separator() + (mid + spec_separator() + messages.last())
            =~= (messages.first() + spec_separator() + mid) + spec_separator()
            + messages.last());
    }
}

/// The messages of a violation sequence, in order.
pub open spec fn violation_messages(violations: Seq<ViolationModel>) -> Seq<Seq<char>> {
    violations.map_values(|v: ViolationModel| v.message)
}

/// Join the messages of the given violations with the separator, in order.
/// No violation is ever dropped from the result.
pub fn aggregate_message(violations: &Vec<Violation>) -> (message: String)
    ensures
        message@ == spec_joined(violation_messages(violations@.map_values(|v: Violation| v@))),
{
    let ghost msgs = violation_messages(violations@.map_values(|v: Violation| v@));
    let mut message = String::new();
    let mut i: usize = 0;
    while i < violations.len()
        invariant
            i <= violations@.len(),
            msgs == violation_messages(violations@.map_values(|v: Violation| v@)),
            msgs.len() == violations@.len(),
            forall|j: int| 0 <= j < violations@.len() ==> msgs[j] == violations@[j]@.message,
            message@ == spec_joined(msgs.take(i as int)),
        decreases violations@.len() - i,
    {
        if i > 0 {
            message.append(", ");
        }
        message.append(violations[i].message.as_str());
        proof {
            assert(msgs.take(i + 1).drop_last() =~= msgs.take(i as int));
            assert(msgs.take(i + 1).last() == msgs[i as int]);
            if i > 0 {
                lemma_joined_snoc(msgs.take(i + 1));
            } else {
                assert(msgs.take(1).len() == 1);
                assert(Seq::<char>::empty() + msgs[0] =~= msgs[0]);
            }
        }
        i += 1;
    }
    proof {
        assert(msgs.take(violations@.len() as int) =~= msgs);
    }
    message
}

} // verus!
