use vstd::prelude::*;
use crate::error::Error;

verus! {

/// The importance of a given unit, ascending: a decoder degrades most
/// gracefully by dropping the least important units first.
#[derive(Debug, Copy, Clone, Hash, Eq, PartialEq, Structural)]
pub enum Priority {
    /// Not important at all.
    Disposable,
    /// Not very important.
    Low,
    /// Pretty important.
    High,
    /// Extremely important.
    Highest,
}

/// The priority a native reference-importance code classifies as. The
/// native layer reports the codes written here; an unrecognized code maps
/// to the highest level as a conservative default.
pub open spec fn priority_of_code(code: int) -> Priority {
    if code == 0 {
        Priority::Disposable
    } else if code == 1 {
        Priority::Low
    } else if code == 2 {
        Priority::High
    } else {
        Priority::Highest
    }
}

/// A single output unit: one discrete record of encoded bitstream data,
/// borrowed from encoder-owned memory.
#[derive(Clone, Copy)]
pub struct Unit<'a> {
    priority: Priority,
    payload: &'a [u8],
}

impl<'a> Unit<'a> {
    /// The priority this unit's view exposes.
    pub closed spec fn spec_priority(self) -> Priority {
        self.priority
    }

    /// The payload bytes this unit's view exposes.
    pub closed spec fn spec_payload(self) -> Seq<u8> {
        self.payload@
    }

    /// Classifies one native output record: the reference-importance code
    /// is mapped to a priority and the payload bytes are borrowed as is.
    pub fn from_raw(code: i32, payload: &'a [u8]) -> (r: Self)
        ensures
            r.spec_priority() == priority_of_code(code as int),
            r.spec_payload() == payload@,
    {
        let priority = if code == 0 {
            Priority::Disposable
        } else if code == 1 {
            Priority::Low
        } else if code == 2 {
            Priority::High
        } else {
            Priority::Highest
        };
        Unit { priority, payload }
    }

    /// How crucial this unit is regarding the decoding of the video.
    pub fn priority(&self) -> (r: Priority)
        ensures
            r == self.spec_priority(),
    {
        self.priority
    }

    /// The unit's payload bytes.
    pub fn payload(&self) -> (r: &'a [u8])
        ensures
            r@ == self.spec_payload(),
    {
        self.payload
    }
}

/// The payload byte sequences of a run of units, in order.
pub open spec fn payloads<'a>(units: Seq<Unit<'a>>) -> Seq<Seq<u8>> {
    units.map_values(|u: Unit<'a>| u.spec_payload())
}

/// The total number of payload bytes in a run of units.
pub open spec fn total_payload_len<'a>(units: Seq<Unit<'a>>) -> int {
    payloads(units).fold_left(0, |acc: int, s: Seq<u8>| acc + s.len())
}

/// The encoded data, to be used in chunks or in its entirety.
///
/// A `Data` is a view over one call's output-unit records; it is valid
/// only until the next call on the same encoder, which the borrow it
/// carries enforces.
pub struct Data<'a> {
    units: Vec<Unit<'a>>,
}

impl<'a> Data<'a> {
    /// The run of units this view exposes.
    pub closed spec fn spec_units(self) -> Seq<Unit<'a>> {
        self.units@
    }

    /// Assembles the view over one call's output units.
    pub fn from_raw_parts(units: Vec<Unit<'a>>) -> (r: Self)
        ensures
            r.spec_units() == units@,
    {
        Data { units }
    }

    /// The length (in units, **not** in bytes) of this data sequence.
    pub fn len(&self) -> (r: usize)
        ensures
            r == self.spec_units().len(),
    {
        self.units.len()
    }

    /// The `i`th unit, which must be within bounds: `i` less than `len`.
    pub fn unit(&self, i: usize) -> (r: Unit<'a>)
        requires
            i < self.spec_units().len(),
        ensures
            r == self.spec_units()[i as int],
    {
        self.units[i]
    }

    /// The entire chunk of data, as one big byte vector: every unit's
    /// payload, in order. It is empty exactly when there are no units,
    /// and its length is the sum of all the units' payload lengths.
    ///
    /// The native engine guarantees that one call's units are laid out
    /// contiguously in its own memory; that guarantee cannot be checked
    /// here, so this view assembles the bytes from the units instead of
    /// leaning on it.
    pub fn entirety(&self) -> (r: Vec<u8>)
        ensures
            r@ == payloads(self.spec_units()).flatten(),
            r@.len() == total_payload_len(self.spec_units()),
            self.spec_units().len() == 0 ==> r@.len() == 0,
    {
        let mut out: Vec<u8> = Vec::new();
        let ghost all = payloads(self.units@);
        proof {
            assert(all.take(0) =~= Seq::<Seq<u8>>::empty());
            assert(all.take(0).flatten() =~= Seq::<u8>::empty());
        }
        let n = self.units.len();
        let mut i: usize = 0;
        while i < n
            invariant
                n == self.spec_units().len(),
                0 <= i <= n,
                all == payloads(self.spec_units()),
                out@ == all.take(i as int).flatten(),
            decreases n - i,
        {
            let p: &[u8] = self.units[i].payload;
            let m = p.len();
            let mut j: usize = 0;
            proof {
                assert(p@.take(0) =~= Seq::<u8>::empty());
            }
            while j < m
                invariant
                    m == p@.len(),
                    0 <= j <= m,
                    i < n,
                    n == self.spec_units().len(),
                    all == payloads(self.spec_units()),
                    p@ == all[i as int],
                    out@ == all.take(i as int).flatten() + p@.take(j as int),
                decreases m - j,
            {
                out.push(p[j]);
                proof {
                    assert(p@.take(j + 1) =~= p@.take(j as int).push(p@[j as int]));
                }
                j += 1;
            }
            proof {
                assert(all.take(i + 1) =~= all.take(i as int).push(all[i as int]));
                all.take(i as int).lemma_flatten_push(all[i as int]);
                assert(p@.take(m as int) =~= p@);
            }
            i += 1;
        }
        proof {
            assert(all.take(n as int) =~= all);
            lemma_flatten_len(all);
            assert(payloads(self.spec_units()).len() == self.spec_units().len());
        }
        out
    }
}

/// The length of a flattened sequence of sequences is the sum of the
/// lengths, folded left to right.
proof fn lemma_flatten_len(s: Seq<Seq<u8>>)
    ensures
        s.flatten().len() == s.fold_left(0, |acc: int, e: Seq<u8>| acc + e.len()),
    decreases s.len(),
{
    if s.len() == 0 {
    } else {
        lemma_flatten_len(s.drop_last());
        s.drop_last().lemma_flatten_push(s.last());
        assert(s.drop_last().push(s.last()) =~= s);
    }
}

/// Law: the entirety of a unit run is empty exactly when the run is
/// empty, and otherwise holds the sum of the payload lengths.
pub proof fn lemma_entirety_len<'a>(units: Seq<Unit<'a>>)
    ensures
        payloads(units).flatten().len() == total_payload_len(units),
        units.len() == 0 ==> payloads(units).flatten().len() == 0,
{
    lemma_flatten_len(payloads(units));
}

/// Interprets a native status for a data-producing call: a negative
/// status is the uniform failure signal, any other status hands the
/// call's output units through unchanged.
pub(crate) fn data_result<'a>(status: i32, units: Vec<Unit<'a>>) -> (r: Result<Data<'a>, Error>)
    ensures
        status < 0 <==> r is Err,
        status >= 0 ==> (r matches Ok(d) && d.spec_units() == units@),
{
    if status < 0 {
        Err(Error)
    } else {
        Ok(Data::from_raw_parts(units))
    }
}

} // verus!
