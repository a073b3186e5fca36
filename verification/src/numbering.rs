use vstd::prelude::*;

use crate::errors::NoteError;

verus! {

/// `m` is the largest number in `used`.
pub open spec fn is_max_used(used: Set<u16>, m: u16) -> bool {
    used.contains(m) && forall|x: u16| used.contains(x) ==> x <= m
}

/// The number the auto-increment path hands out: one more than the largest
/// used number, or `1` when nothing is used yet.  No `n` satisfies this when
/// the largest used number is `u16::MAX`: the space is exhausted.
pub open spec fn auto_assigns(used: Set<u16>, n: u16) -> bool {
    if used.is_empty() {
        n == 1
    } else {
        exists|m: u16| is_max_used(used, m) && n == m + 1
    }
}

/// The number `create` assigns: exactly the requested number when one was
/// requested and is free; otherwise (no request, or the request collides
/// with a live note) the auto-increment value.  A collision is not an
/// error: the fallback is silent by design.
pub open spec fn assigns(used: Set<u16>, requested: Option<u16>, n: u16) -> bool {
    match requested {
        Some(r) => if used.contains(r) {
            auto_assigns(used, n)
        } else {
            n == r
        },
        None => auto_assigns(used, n),
    }
}

/// No fresh number can be assigned: the auto-increment path is forced
/// (no request, or the request collides) and the largest representable
/// number is already in use.
pub open spec fn space_exhausted(used: Set<u16>, requested: Option<u16>) -> bool {
    (match requested {
        Some(r) => used.contains(r),
        None => true,
    }) && used.contains(u16::MAX)
}

/// Picks the number for a new note given the numbers already in use.
///
/// Returns the requested number when it is free, otherwise one more than
/// the largest used number (`1` on an empty store), and fails exactly when
/// that fallback is needed and the largest used number is already
/// `u16::MAX`.
pub fn allocate_number(used: &Vec<u16>, requested: Option<u16>) -> (r: Result<u16, NoteError>)
    ensures
        match r {
            Ok(n) => assigns(used@.to_set(), requested, n)
                && !used@.to_set().contains(n)
                && !space_exhausted(used@.to_set(), requested),
            Err(e) => e == NoteError::IdentifierSpaceExhausted
                && space_exhausted(used@.to_set(), requested),
        },
{
    let ghost us = used@.to_set();
    let mut max: u16 = 0;
    let mut req_taken: bool = false;
    let mut i: usize = 0;
    while i < used.len()
        invariant
            i <= used@.len(),
            forall|j: int| 0 <= j < i ==> used@[j] <= max,
            i > 0 ==> exists|j: int| 0 <= j < i && used@[j] == max,
            i == 0 ==> max == 0,
            req_taken <==> (match requested {
                Some(r) => exists|j: int| 0 <= j < i && used@[j] == r,
                None => false,
            }),
        decreases used@.len() - i,
    {
        let x = used[i];
        if x > max {
            max = x;
        }
        if let Some(r) = requested {
            if x == r {
                req_taken = true;
            }
        }
        i = i + 1;
    }
    proof {
        assert(forall|a: u16| us.contains(a) <==> used@.contains(a));
    }
    let use_auto: bool = match requested {
        Some(_) => req_taken,
        None => true,
    };
    if !use_auto {
        let r = match requested {
            Some(r) => r,
            None => 0,
        };
        Ok(r)
    } else if used.len() == 0 {
        proof {
            assert(us =~= Set::<u16>::empty());
        }
        Ok(1)
    } else if max == u16::MAX {
        proof {
            assert(used@.contains(max));
        }
        Err(NoteError::IdentifierSpaceExhausted)
    } else {
        proof {
            assert(used@.contains(max));
            assert(!us.is_empty()) by {
                assert(us.contains(max));
            }
            assert(is_max_used(us, max));
            assert(!us.contains((max + 1) as u16)) by {
                if us.contains((max + 1) as u16) {
                    assert(max + 1 <= max);
                }
            }
        }
        Ok(max + 1)
    }
}

/// Uniqueness: a number handed out by the allocation rule is never one that
/// a live note already carries, so no two live notes ever share a number.
pub proof fn lemma_assigned_number_fresh(used: Set<u16>, requested: Option<u16>, n: u16)
    requires
        assigns(used, requested, n),
    ensures
        !used.contains(n),
{
    match requested {
        Some(r) => {
            if used.contains(r) {
                lemma_auto_above_all(used, n);
            }
        },
        None => {
            lemma_auto_above_all(used, n);
        },
    }
}

/// The auto-increment path never fills a gap: the number it hands out lies
/// strictly above every number in use.
pub proof fn lemma_auto_above_all(used: Set<u16>, n: u16)
    requires
        auto_assigns(used, n),
    ensures
        forall|x: u16| used.contains(x) ==> x < n,
{
    if !used.is_empty() {
        let m = choose|m: u16| is_max_used(used, m) && n == m + 1;
        assert(forall|x: u16| used.contains(x) ==> x <= m);
    }
}

/// A requested number that is free is honoured exactly.
pub proof fn lemma_requested_free_is_honoured(used: Set<u16>, r: u16, n: u16)
    requires
        !used.contains(r),
        assigns(used, Some(r), n),
    ensures
        n == r,
{
}

/// A requested number that collides with a live note falls back, silently,
/// to the auto-increment value.
pub proof fn lemma_requested_collision_falls_back(used: Set<u16>, r: u16, n: u16)
    requires
        used.contains(r),
        assigns(used, Some(r), n),
    ensures
        auto_assigns(used, n),
{
}

/// The allocation rule is deterministic: from one state and one request it
/// admits a single number.
pub proof fn lemma_assigns_unique(used: Set<u16>, requested: Option<u16>, n1: u16, n2: u16)
    requires
        assigns(used, requested, n1),
        assigns(used, requested, n2),
    ensures
        n1 == n2,
{
    if !used.is_empty() && auto_assigns(used, n1) && auto_assigns(used, n2) {
        let m1 = choose|m: u16| is_max_used(used, m) && n1 == m + 1;
        let m2 = choose|m: u16| is_max_used(used, m) && n2 == m + 1;
        assert(m1 <= m2 && m2 <= m1);
    }
}

} // verus!
