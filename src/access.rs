use vstd::prelude::*;

verus! {

/// How the engine treats a connection that a rule matches.
#[derive(Clone, Copy, Debug, PartialEq, Eq, Structural)]
pub enum AuthMethod {
    /// Password authentication with SCRAM-SHA-256.
    Password,
    Reject,
}

/// One host-based access rule on loopback: the role it applies to (`None`
/// for every role) and what it does.
pub struct RuleView {
    pub role: Option<Seq<char>>,
    pub method: AuthMethod,
}

/// The engine's administrative role.
pub open spec fn admin_role() -> Seq<char> {
    "postgres"@
}

/// The least-privilege role that the application connects as.
pub open spec fn app_role() -> Seq<char> {
    "app_user"@
}

/// The access rules of a hardened cluster, in order: password access for
/// the two known roles, then a rule that turns every other role away.
pub open spec fn access_rules() -> Seq<RuleView> {
    seq![
        RuleView { role: Some(admin_role()), method: AuthMethod::Password },
        RuleView { role: Some(app_role()), method: AuthMethod::Password },
        RuleView { role: None, method: AuthMethod::Reject },
    ]
}

pub open spec fn rule_applies(r: RuleView, role: Seq<char>) -> bool {
    match r.role {
        Some(x) => x == role,
        None => true,
    }
}

/// The method of the first rule that applies to `role`, as the engine reads
/// the file from the top.
pub open spec fn decide(rules: Seq<RuleView>, role: Seq<char>) -> Option<AuthMethod>
    decreases rules.len(),
{
    if rules.len() == 0 {
        None
    } else if rule_applies(rules[0], role) {
        Some(rules[0].method)
    } else {
        decide(rules.subrange(1, rules.len() as int), role)
    }
}

pub open spec fn method_text(m: AuthMethod) -> Seq<char> {
    match m {
        AuthMethod::Password => "scram-sha-256"@,
        AuthMethod::Reject => "reject"@,
    }
}

pub open spec fn role_text(r: Option<Seq<char>>) -> Seq<char> {
    match r {
        Some(x) => x,
        None => "all"@,
    }
}

/// One line of the access-rule file.
pub open spec fn rule_line(r: RuleView) -> Seq<char> {
    "host all "@ + role_text(r.role) + " 127.0.0.1/32 "@ + method_text(r.method) + "\n"@
}

/// The access-rule file: the rules in order, with a comment before the last one.
pub open spec fn access_file() -> Seq<char> {
    let rules = access_rules();
    rule_line(rules[0]) + rule_line(rules[1]) + "# Bloquer le reste\n"@ + rule_line(rules[2])
}

fn push_rule_line(out: &mut String, role: &str, method: &str)
    ensures
        final(out)@ == old(out)@ + "host all "@ + role@ + " 127.0.0.1/32 "@ + method@ + "\n"@,
{
    out.append("host all ");
    out.append(role);
    out.append(" 127.0.0.1/32 ");
    out.append(method);
    out.append("\n");
}

/// The text of the access-rule file.
pub fn access_rules_text() -> (r: String)
    ensures
        r@ == access_file(),
{
    let mut out = String::new();
    push_rule_line(&mut out, "postgres", "scram-sha-256");
    push_rule_line(&mut out, "app_user", "scram-sha-256");
    out.append("# Bloquer le reste\n");
    push_rule_line(&mut out, "all", "reject");
    assert(out@ =~= access_file());
    out
}

/// Default deny: a loopback connection as any role other than the
/// administrative and application roles meets the final catch-all rule and
/// is rejected; the two known roles get password access.
pub proof fn lemma_other_roles_rejected(role: Seq<char>)
    ensures
        role != admin_role() && role != app_role() ==> decide(access_rules(), role) == Some(
            AuthMethod::Reject,
        ),
        role == admin_role() || role == app_role() ==> decide(access_rules(), role) == Some(
            AuthMethod::Password,
        ),
        access_rules().last().role is None,
        access_rules().last().method == AuthMethod::Reject,
{
    let rules = access_rules();
    let r1 = rules.subrange(1, 3);
    let r2 = r1.subrange(1, 2);
    let r3 = r2.subrange(1, 1);
    assert(r1[0] == rules[1]);
    assert(r2[0] == rules[2]);
    assert(r3.len() == 0);
    assert(decide(r2, role) == Some(AuthMethod::Reject));
    assert(decide(r1, role) == if rule_applies(r1[0], role) {
        Some(AuthMethod::Password)
    } else {
        decide(r2, role)
    });
    assert(decide(rules, role) == if rule_applies(rules[0], role) {
        Some(AuthMethod::Password)
    } else {
        decide(r1, role)
    });
}

} // verus!
