//! Directory names of keyspaces.
use vstd::prelude::*;

verus! {

/// The decimal digits, in order of value.
pub open spec fn digits() -> Seq<char> {
    "0123456789"@
}

/// The decimal numeral of `n`, without leading zeros.
pub open spec fn decimal(n: nat) -> Seq<char>
    decreases n,
{
    if n < 10 {
        digits().subrange(n as int, n + 1 as int)
    } else {
        decimal(n / 10) + digits().subrange((n % 10) as int, (n % 10) + 1 as int)
    }
}

/// The directory of keyspace `id` under `base`: `{base}/{id}`.
pub open spec fn keyspace_dir(base: Seq<char>, id: nat) -> Seq<char> {
    base + "/"@ + decimal(id)
}

proof fn lemma_decimal_nonempty(n: nat)
    ensures
        decimal(n).len() >= 1,
        n >= 10 ==> decimal(n).len() >= 2,
    decreases n,
{
    reveal_strlit("0123456789");
    if n >= 10 {
        lemma_decimal_nonempty(n / 10);
    }
}

proof fn lemma_decimal_injective(a: nat, b: nat)
    requires
        decimal(a) == decimal(b),
    ensures
        a == b,
    decreases a,
{
    reveal_strlit("0123456789");
    lemma_decimal_nonempty(a);
    lemma_decimal_nonempty(b);
    if a < 10 && b < 10 {
        assert(digits()[a as int] == decimal(a)[0]);
        assert(digits()[b as int] == decimal(b)[0]);
    } else if a >= 10 && b >= 10 {
        let da = decimal(a);
        let pa = decimal(a / 10);
        let pb = decimal(b / 10);
        assert(da.last() == digits()[(a % 10) as int]);
        assert(decimal(b).last() == digits()[(b % 10) as int]);
        assert(pa == da.drop_last());
        assert(pb == decimal(b).drop_last());
        lemma_decimal_injective(a / 10, b / 10);
    }
}

/// Distinct keyspaces under one base directory get distinct directories.
pub proof fn lemma_keyspace_dirs_distinct(base: Seq<char>, a: nat, b: nat)
    requires
        a != b,
    ensures
        keyspace_dir(base, a) != keyspace_dir(base, b),
{
    if keyspace_dir(base, a) == keyspace_dir(base, b) {
        let prefix = base + "/"@;
        assert(decimal(a) =~= keyspace_dir(base, a).subrange(prefix.len() as int, keyspace_dir(base, a).len() as int));
        assert(decimal(b) =~= keyspace_dir(base, b).subrange(prefix.len() as int, keyspace_dir(base, b).len() as int));
        lemma_decimal_injective(a, b);
    }
}

fn push_decimal(s: &mut String, n: u32)
    ensures
        final(s)@ == old(s)@ + decimal(n as nat),
    decreases n,
{
    proof {
        reveal_strlit("0123456789");
    }
    let table = "0123456789";
    if n >= 10 {
        push_decimal(s, n / 10);
    }
    let d = (n % 10) as usize;
    s.append(table.substring_char(d, d + 1));
    assert(final(s)@ =~= old(s)@ + decimal(n as nat));
}

/// The directory of keyspace `id` under `base`.
pub fn keyspace_dict_path(base: &String, id: u32) -> (r: String)
    ensures
        r@ == keyspace_dir(base@, id as nat),
{
    let mut s = base.clone();
    s.append("/");
    push_decimal(&mut s, id);
    s
}

} // verus!
