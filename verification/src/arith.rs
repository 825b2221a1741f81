//! The combination policy of the elementwise arithmetic layer.
//!
//! Arithmetic between two signals is lenient: the combination is applied
//! only when the kinds match, both payloads are present and their
//! lengths agree; otherwise the left operand is left unchanged and the
//! failure is reported to the caller through the returned flag, never
//! raised. That policy is what these functions pin down; the element
//! operation itself (float addition, subtraction, scaling) is supplied
//! by the caller.

use vstd::prelude::*;

use crate::io::IO;

verus! {

/// Combines two same-kind signals' payloads elementwise, pairwise by
/// position, with the given element operation. A kind mismatch, an
/// absent payload on either side or a length mismatch applies nothing
/// and returns false, so the caller can record the failure.
pub fn combine_payloads<T: Copy, F: Fn(T, T) -> T>(
    io: &mut IO<Vec<T>>,
    other: &IO<Vec<T>>,
    f: &F,
) -> (applied: bool)
    requires
        forall|x: T, y: T| f.requires((x, y)),
    ensures
        final(io).kind == old(io).kind,
        applied <==> (old(io).kind == other.kind && old(io).data is Some && other.data is Some
            && old(io).data->0@.len() == other.data->0@.len()),
        !applied ==> final(io).data == old(io).data,
        applied ==> (final(io).data matches Some(z) && z@.len() == old(io).data->0@.len()
            && forall|j: int|
            0 <= j < z@.len() ==> f.ensures((old(io).data->0@[j], other.data->0@[j]), z@[j])),
{
    if io.kind != other.kind {
        return false;
    }
    let d = io.data.take();
    match (d, &other.data) {
        (Some(x), Some(y)) => {
            if x.len() != y.len() {
                io.data = Some(x);
                return false;
            }
            let mut z: Vec<T> = Vec::new();
            let mut i: usize = 0;
            while i < x.len()
                invariant
                    i <= x@.len(),
                    x@.len() == y@.len(),
                    z@.len() == i,
                    forall|x0: T, y0: T| f.requires((x0, y0)),
                    forall|j: int| 0 <= j < i ==> f.ensures((x@[j], y@[j]), z@[j]),
                decreases x@.len() - i,
            {
                z.push(f(x[i], y[i]));
                i += 1;
            }
            io.data = Some(z);
            true
        },
        (d0, _) => {
            io.data = d0;
            false
        },
    }
}

/// Rewrites every payload element with the given element operation, for
/// scaling. An absent payload applies nothing and returns false, so the
/// caller can record the failure.
pub fn scale_payload<T: Copy, F: Fn(T) -> T>(io: &mut IO<Vec<T>>, f: &F) -> (applied: bool)
    requires
        forall|x: T| f.requires((x,)),
    ensures
        final(io).kind == old(io).kind,
        applied <==> old(io).data is Some,
        !applied ==> final(io).data == old(io).data,
        applied ==> (final(io).data matches Some(z) && z@.len() == old(io).data->0@.len()
            && forall|j: int| 0 <= j < z@.len() ==> f.ensures((old(io).data->0@[j],), z@[j])),
{
    let d = io.data.take();
    match d {
        Some(x) => {
            let mut z: Vec<T> = Vec::new();
            let mut i: usize = 0;
            while i < x.len()
                invariant
                    i <= x@.len(),
                    z@.len() == i,
                    forall|x0: T| f.requires((x0,)),
                    forall|j: int| 0 <= j < i ==> f.ensures((x@[j],), z@[j]),
                decreases x@.len() - i,
            {
                z.push(f(x[i]));
                i += 1;
            }
            io.data = Some(z);
            true
        },
        None => {
            io.data = None;
            false
        },
    }
}

} // verus!
