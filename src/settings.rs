use vstd::prelude::*;

verus! {

/// One configuration override, as the formatting engine receives it.
#[derive(Debug, Clone, PartialEq, Eq)]
pub enum Setting {
    Bool(bool),
    Int(i32),
    Text(String),
}

/// A member of the `typescript` object of a configuration document, as the
/// extraction reads it.
#[derive(Debug, Clone, PartialEq, Eq)]
pub enum Member {
    Bool(bool),
    /// A number: its value as an `i64` when it is an integer in that range,
    /// and its value cast down to `i32` when it can be read as a fraction.
    Number { exact: Option<i64>, truncated: Option<i32> },
    Text(String),
    /// An array, an object or null: these are skipped.
    Other,
}

/// `i` cut down to 32 bits, read as two's complement.
pub open spec fn wrap_i32(i: int) -> int {
    let m = i % 0x1_0000_0000;
    if m >= 0x8000_0000 {
        m - 0x1_0000_0000
    } else {
        m
    }
}

/// Keeps the low 32 bits of `i`, as a signed value.
pub fn wrapped_i32(i: i64) -> (r: i32)
    ensures
        r as int == wrap_i32(i as int),
{
    let m: i64 = if i >= 0 {
        i % 0x1_0000_0000
    } else {
        let p: i64 = -(i + 1);
        let q: i64 = p % 0x1_0000_0000;
        proof {
            let k = p / 0x1_0000_0000;
            assert(p == k * 0x1_0000_0000 + q);
            assert(i == (-(k + 1)) * 0x1_0000_0000 + (0x1_0000_0000 - 1 - q)) by (nonlinear_arith)
                requires
                    p == k * 0x1_0000_0000 + q,
                    p == -(i + 1),
            ;
            vstd::arithmetic::div_mod::lemma_fundamental_div_mod_converse(
                i as int,
                0x1_0000_0000,
                -(k + 1),
                0x1_0000_0000 - 1 - q,
            );
        }
        0x1_0000_0000 - 1 - q
    };
    if m >= 0x8000_0000 {
        (m - 0x1_0000_0000) as i32
    } else {
        m as i32
    }
}

/// The override a member gives, if any.
pub open spec fn setting_spec(m: Member) -> Option<Setting> {
    match m {
        Member::Bool(b) => Some(Setting::Bool(b)),
        Member::Number { exact, truncated } => match exact {
            Some(i) => Some(Setting::Int(wrap_i32(i as int) as i32)),
            None => match truncated {
                Some(t) => Some(Setting::Int(t)),
                None => None,
            },
        },
        Member::Text(s) => Some(Setting::Text(s)),
        Member::Other => None,
    }
}

/// The overrides of a list of members, in the same order: one for each
/// scalar member, none for the others.
pub open spec fn overrides_spec(members: Seq<(String, Member)>) -> Seq<(String, Setting)>
    decreases members.len(),
{
    if members.len() == 0 {
        Seq::empty()
    } else {
        let rest = overrides_spec(members.drop_last());
        match setting_spec(members.last().1) {
            Some(v) => rest.push((members.last().0, v)),
            None => rest,
        }
    }
}

pub fn setting_of(m: &Member) -> (r: Option<Setting>)
    ensures
        r == setting_spec(*m),
{
    match m {
        Member::Bool(b) => Some(Setting::Bool(*b)),
        Member::Number { exact, truncated } => match exact {
            Some(i) => Some(Setting::Int(wrapped_i32(*i))),
            None => match truncated {
                Some(t) => Some(Setting::Int(*t)),
                None => None,
            },
        },
        Member::Text(s) => Some(Setting::Text(s.clone())),
        Member::Other => None,
    }
}

pub fn overrides_of(members: &Vec<(String, Member)>) -> (r: Vec<(String, Setting)>)
    ensures
        r@ == overrides_spec(members@),
{
    let mut r: Vec<(String, Setting)> = Vec::new();
    let n = members.len();
    let mut i: usize = 0;
    while i < n
        invariant
            n == members@.len(),
            i <= n,
            r@ == overrides_spec(members@.subrange(0, i as int)),
        decreases n - i,
    {
        let ghost before = members@.subrange(0, i as int);
        let ghost after = members@.subrange(0, i + 1);
        assert(after.drop_last() =~= before);
        assert(after.last() == members@[i as int]);
        match setting_of(&members[i].1) {
            Some(v) => {
                r.push((members[i].0.clone(), v));
            },
            None => {},
        }
        i = i + 1;
    }
    assert(members@.subrange(0, n as int) =~= members@);
    r
}

/// Every scalar member gives an override under its own key, with its value
/// kept (a fractional number cast down to an integer); each override comes
/// from a scalar member; no member, no override.
pub proof fn lemma_overrides_keep_scalars(members: Seq<(String, Member)>)
    ensures
        forall|i: int|
            0 <= i < members.len() && (#[trigger] setting_spec(members[i].1)) is Some ==> exists|
                j: int,
            |
                0 <= j < overrides_spec(members).len() && #[trigger] overrides_spec(members)[j] == (
                members[i].0,
                setting_spec(members[i].1)->Some_0,
            ),
        forall|j: int|
            0 <= j < overrides_spec(members).len() ==> exists|i: int|
                0 <= i < members.len() && members[i].0 == (#[trigger] overrides_spec(members)[j]).0
                    && setting_spec(members[i].1) == Some(overrides_spec(members)[j].1),
        members.len() == 0 ==> overrides_spec(members).len() == 0,
    decreases members.len(),
{
    if members.len() > 0 {
        let init = members.drop_last();
        lemma_overrides_keep_scalars(init);
        let rest = overrides_spec(init);
        let r = overrides_spec(members);
        assert forall|i: int|
            0 <= i < members.len() && (#[trigger] setting_spec(members[i].1)) is Some implies exists|
                j: int,
            |
                0 <= j < r.len() && #[trigger] r[j] == (
                members[i].0,
                setting_spec(members[i].1)->Some_0,
            ) by {
            if i < members.len() - 1 {
                assert(init[i] == members[i]);
                assert(setting_spec(init[i].1) is Some);
                let j = choose|j: int|
                    0 <= j < rest.len() && #[trigger] rest[j] == (
                    init[i].0,
                    setting_spec(init[i].1)->Some_0,
                );
                assert(r[j] == rest[j]);
            } else {
                assert(r[rest.len() as int] == (
                members[i].0,
                setting_spec(members[i].1)->Some_0,
            ));
            }
        }
        assert forall|j: int| 0 <= j < r.len() implies exists|i: int|
            0 <= i < members.len() && members[i].0 == (#[trigger] r[j]).0 && setting_spec(
                members[i].1,
            ) == Some(r[j].1) by {
            if j < rest.len() {
                assert(r[j] == rest[j]);
                let i = choose|i: int|
                    0 <= i < init.len() && init[i].0 == (#[trigger] rest[j]).0 && setting_spec(
                        init[i].1,
                    ) == Some(rest[j].1);
                assert(members[i] == init[i]);
            } else {
                assert(members[members.len() - 1] == members.last());
            }
        }
    }
}

} // verus!
