//! Multi-signature admin check: enough distinct admins must sign.

use vstd::prelude::*;
use crate::types::Address;

verus! {

/// The admins among the first `n` signers, each counted once, in the
/// order in which they signed.
pub open spec fn counted_signers(admins: Seq<Address>, signers: Seq<Address>, n: nat) -> Seq<
    Address,
>
    recommends
        n <= signers.len(),
    decreases n,
{
    if n == 0 {
        Seq::empty()
    } else {
        let c = counted_signers(admins, signers, (n - 1) as nat);
        let s = signers[n - 1];
        if c.contains(s) || !admins.contains(s) {
            c
        } else {
            c.push(s)
        }
    }
}

/// Each admin signer is counted once.
pub proof fn lemma_counted_signers_distinct(admins: Seq<Address>, signers: Seq<Address>, n: nat)
    requires
        n <= signers.len(),
    ensures
        counted_signers(admins, signers, n).no_duplicates(),
        forall|a: Address| #[trigger]
            counted_signers(admins, signers, n).contains(a) ==> admins.contains(a)
                && signers.contains(a),
    decreases n,
{
    if n > 0 {
        lemma_counted_signers_distinct(admins, signers, (n - 1) as nat);
        let c = counted_signers(admins, signers, (n - 1) as nat);
        let s = signers[n - 1];
        assert forall|a: Address| #[trigger]
            counted_signers(admins, signers, n).contains(a) implies admins.contains(a)
            && signers.contains(a) by {
            if !c.contains(a) {
                assert(a == s);
            }
        }
    }
}

/// The counted signers are exactly the admins among the first `n` signers,
/// so their number is the number of distinct admin signers.
pub proof fn lemma_counted_signers_are_admin_signers(
    admins: Seq<Address>,
    signers: Seq<Address>,
    n: nat,
)
    requires
        n <= signers.len(),
    ensures
        counted_signers(admins, signers, n).to_set() == signers.take(n as int).to_set().intersect(
            admins.to_set(),
        ),
        counted_signers(admins, signers, n).len() == signers.take(n as int).to_set().intersect(
            admins.to_set(),
        ).len(),
    decreases n,
{
    let c = counted_signers(admins, signers, n);
    let want = signers.take(n as int).to_set().intersect(admins.to_set());
    if n > 0 {
        lemma_counted_signers_are_admin_signers(admins, signers, (n - 1) as nat);
        let p = counted_signers(admins, signers, (n - 1) as nat);
        let s = signers[n - 1];
        assert(signers.take(n as int) =~= signers.take(n - 1).push(s));
        assert forall|x: Address| #[trigger] c.to_set().contains(x) <==> want.contains(x) by {
            assert(c.to_set().contains(x) <==> c.contains(x));
            assert(p.to_set().contains(x) <==> p.contains(x));
            assert(signers.take(n as int).to_set().contains(x) <==> signers.take(n as int).contains(
                x,
            ));
            assert(signers.take(n - 1).to_set().contains(x) <==> signers.take(n - 1).contains(x));
            assert(admins.to_set().contains(x) <==> admins.contains(x));
            if signers.take(n as int).contains(x) && !signers.take(n - 1).contains(x) {
                let k = choose|k: int| 0 <= k < n && #[trigger] signers.take(n as int)[k] == x;
                if k < n - 1 {
                    assert(signers.take(n - 1)[k] == x);
                }
            }
            if signers.take(n - 1).contains(x) {
                let k = choose|k: int| 0 <= k < n - 1 && #[trigger] signers.take(n - 1)[k] == x;
                assert(signers.take(n as int)[k] == x);
            }
            if x == s {
                assert(signers.take(n as int)[n - 1] == x);
            }
            if c.contains(x) && !p.contains(x) {
                assert(c == p.push(s));
                let k = choose|k: int| 0 <= k < c.len() && #[trigger] c[k] == x;
                assert(k == p.len());
            }
            if p.contains(x) {
                let k = choose|k: int| 0 <= k < p.len() && #[trigger] p[k] == x;
                if c != p {
                    assert(c[k] == x);
                }
            }
            if c != p {
                assert(c[p.len() as int] == s);
            }
        }
        assert(c.to_set() =~= want);
    } else {
        assert(c.to_set() =~= want) by {
            assert forall|x: Address| !want.contains(x) by {
                assert(signers.take(0).to_set().contains(x) <==> signers.take(0).contains(x));
            }
        }
    }
    lemma_counted_signers_distinct(admins, signers, n);
    c.unique_seq_to_set();
}

/// Counting more signers only extends the count.
proof fn lemma_counted_signers_prefix(admins: Seq<Address>, signers: Seq<Address>, m: nat, n: nat)
    requires
        m <= n <= signers.len(),
    ensures
        counted_signers(admins, signers, m).len() <= counted_signers(admins, signers, n).len(),
        counted_signers(admins, signers, n).take(counted_signers(admins, signers, m).len() as int)
            == counted_signers(admins, signers, m),
    decreases n,
{
    if m < n {
        lemma_counted_signers_prefix(admins, signers, m, (n - 1) as nat);
        let cm = counted_signers(admins, signers, m);
        let cp = counted_signers(admins, signers, (n - 1) as nat);
        let cn = counted_signers(admins, signers, n);
        assert(cn.take(cm.len() as int) =~= cp.take(cm.len() as int));
    } else {
        let cm = counted_signers(admins, signers, m);
        assert(cm.take(cm.len() as int) =~= cm);
    }
}

/// The outcome of an admin threshold check: the signers whose
/// authorization the host must require, in order, and the verdict.
pub struct AdminApproval {
    pub authorizers: Vec<Address>,
    pub outcome: Result<(), ()>,
}

/// What the counted admin signers say about the threshold check.
proof fn lemma_threshold_facts(admins: Seq<Address>, signers: Seq<Address>, threshold: u32)
    ensures
        ({
            let all = counted_signers(admins, signers, signers.len());
            &&& all.len() == signers.to_set().intersect(admins.to_set()).len()
            &&& all.no_duplicates()
            &&& forall|k: int|
                0 <= k < all.len() ==> admins.contains(#[trigger] all[k]) && signers.contains(
                    all[k],
                )
            &&& all.len() >= threshold ==> {
                &&& all.take(threshold as int).len() == threshold
                &&& all.take(threshold as int).no_duplicates()
                &&& forall|k: int|
                    0 <= k < all.take(threshold as int).len() ==> admins.contains(
                        #[trigger] all.take(threshold as int)[k],
                    ) && signers.contains(all.take(threshold as int)[k])
            }
        }),
{
    let all = counted_signers(admins, signers, signers.len());
    lemma_counted_signers_are_admin_signers(admins, signers, signers.len());
    assert(signers.take(signers.len() as int) =~= signers);
    lemma_counted_signers_distinct(admins, signers, signers.len());
    assert forall|k: int| 0 <= k < all.len() implies admins.contains(#[trigger] all[k])
        && signers.contains(all[k]) by {
        assert(all.contains(all[k]));
    }
    let head = all.take(threshold as int);
    if threshold <= all.len() {
        assert forall|k: int| 0 <= k < head.len() implies admins.contains(#[trigger] head[k])
            && signers.contains(head[k]) by {
            assert(head[k] == all[k]);
            assert(all.contains(all[k]));
        }
        assert forall|x: int, y: int| 0 <= x < head.len() && 0 <= y < head.len() && x != y implies head[x]
            != head[y] by {
            assert(head[x] == all[x] && head[y] == all[y]);
        }
    }
}

/// Whether `x` occurs in `v`.
fn address_in(v: &Vec<Address>, x: Address) -> (found: bool)
    ensures
        found == v@.contains(x),
{
    let mut i: usize = 0;
    while i < v.len()
        invariant
            i <= v.len(),
            forall|j: int| 0 <= j < i ==> v@[j] != x,
        decreases v.len() - i,
    {
        if v[i] == x {
            assert(v@[i as int] == x);
            return true;
        }
        i = i + 1;
    }
    false
}

/// Requires that at least `threshold` distinct `signers` are members of
/// `admins`. Signers are taken in order; each admin signer not counted yet
/// is counted and must authorize the call, until `threshold` is reached.
/// A zero threshold is refused.
pub fn require_admin_threshold(admins: &Vec<Address>, threshold: u32, signers: &Vec<Address>) -> (r:
    AdminApproval)
    ensures
        threshold == 0 ==> r.authorizers@.len() == 0 && r.outcome == Err::<(), ()>(()),
        threshold > 0 ==> {
            let all = counted_signers(admins@, signers@, signers@.len());
            &&& (r.outcome is Ok <==> all.len() >= threshold)
            &&& r.authorizers@ == (if all.len() >= threshold {
                all.take(threshold as int)
            } else {
                all
            })
        },
        r.outcome is Ok <==> threshold > 0 && signers@.to_set().intersect(admins@.to_set()).len()
            >= threshold,
        r.outcome is Ok ==> r.authorizers@.len() == threshold,
        r.authorizers@.no_duplicates(),
        forall|k: int|
            0 <= k < r.authorizers@.len() ==> admins@.contains(#[trigger] r.authorizers@[k])
                && signers@.contains(r.authorizers@[k]),
{
    proof {
        lemma_threshold_facts(admins@, signers@, threshold);
    }
    if threshold == 0 {
        return AdminApproval { authorizers: Vec::new(), outcome: Err(()) };
    }
    let mut counted: Vec<Address> = Vec::new();
    let mut ok: u32 = 0;
    let mut i: usize = 0;
    while i < signers.len()
        invariant
            i <= signers.len(),
            0 < threshold,
            counted@ == counted_signers(admins@, signers@, i as nat),
            ok == counted@.len(),
            ok < threshold,
        decreases signers.len() - i,
    {
        let s = signers[i];
        proof {
            assert(counted_signers(admins@, signers@, (i + 1) as nat) == (if counted@.contains(s)
                || !admins@.contains(s) {
                counted@
            } else {
                counted@.push(s)
            }));
        }
        if !address_in(&counted, s) && address_in(admins, s) {
            counted.push(s);
            ok = ok.saturating_add(1);
            if ok >= threshold {
                proof {
                    lemma_counted_signers_prefix(
                        admins@,
                        signers@,
                        (i + 1) as nat,
                        signers@.len(),
                    );
                    lemma_threshold_facts(admins@, signers@, threshold);
                }
                return AdminApproval { authorizers: counted, outcome: Ok(()) };
            }
        }
        i = i + 1;
    }
    AdminApproval { authorizers: counted, outcome: Err(()) }
}

} // verus!
