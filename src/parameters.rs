use vstd::prelude::*;

verus! {

/// Reasons for which a parameter set is refused.
#[derive(Clone, Copy, Debug, PartialEq, Eq, Structural)]
pub enum ParameterError {
    /// The binary records do not form a square table of one row and one
    /// column per component.
    BinaryRecordsShape,
    /// The ideal-gas records are not one per component.
    IdealGasRecordsLength,
}

/// The items of `s` at the positions `indices`, in that order.
pub open spec fn select<T>(s: Seq<T>, indices: Seq<usize>) -> Seq<T> {
    Seq::new(indices.len(), |k: int| s[indices[k] as int])
}

/// The square table `t` restricted to the rows and columns `indices`, in that order.
pub open spec fn select_square<T>(t: Seq<Seq<T>>, indices: Seq<usize>) -> Seq<Seq<T>> {
    Seq::new(
        indices.len(),
        |a: int| Seq::new(indices.len(), |b: int| t[indices[a] as int][indices[b] as int]),
    )
}

/// `indices` lists the positions `0, 1, ..., n - 1` in order.
pub open spec fn is_identity(indices: Seq<usize>, n: nat) -> bool {
    indices.len() == n && forall|k: int| 0 <= k < n ==> (#[trigger] indices[k]) as int == k
}

/// Every index names a component among `n`.
pub open spec fn indices_in_range(indices: Seq<usize>, n: nat) -> bool {
    forall|k: int| 0 <= k < indices.len() ==> (#[trigger] indices[k]) < n
}

/// The rows of a table of vectors, as sequences.
pub open spec fn rows<T>(t: Seq<Vec<T>>) -> Seq<Seq<T>> {
    t.map_values(|row: Vec<T>| row@)
}

/// A parameter set of the SAFT-VRQ Mie model: one pure-component record per
/// component, one binary record per ordered pair of components, and
/// optionally one ideal-gas record per component.
pub struct SaftVRQMieParameters<P, B, I> {
    pub pure_records: Vec<P>,
    pub binary_records: Vec<Vec<B>>,
    pub joback_records: Option<Vec<I>>,
}

impl<P: Copy, B: Copy, I: Copy> SaftVRQMieParameters<P, B, I> {
    /// Number of components.
    pub open spec fn n(self) -> nat {
        self.pure_records@.len()
    }

    /// The binary records as a table of sequences.
    pub open spec fn binary(self) -> Seq<Seq<B>> {
        rows(self.binary_records@)
    }

    /// All per-component fields have one entry per component.
    pub open spec fn wf(self) -> bool {
        &&& self.binary_records@.len() == self.n()
        &&& forall|i: int|
            0 <= i < self.n() ==> (#[trigger] self.binary_records@[i])@.len() == self.n()
        &&& self.joback_records matches Some(j) ==> j@.len() == self.n()
    }

    /// Builds a parameter set, refused where the binary records are not a
    /// square table matching the pure records (checked first) or where the
    /// ideal-gas records are not one per component.
    pub fn new(pure_records: Vec<P>, binary_records: Vec<Vec<B>>, joback_records: Option<Vec<I>>) -> (r:
        Result<Self, ParameterError>)
        ensures
            ({
                let n = pure_records@.len();
                let square = binary_records@.len() == n && forall|i: int|
                    0 <= i < n ==> (#[trigger] binary_records@[i])@.len() == n;
                let ideal = joback_records matches Some(j) ==> j@.len() == n;
                &&& r is Ok <==> square && ideal
                &&& r matches Ok(p) ==> p.wf() && p.pure_records@ == pure_records@
                    && p.binary_records@ == binary_records@ && p.joback_records == joback_records
                &&& r matches Err(e) ==> (if !square {
                    e == ParameterError::BinaryRecordsShape
                } else {
                    e == ParameterError::IdealGasRecordsLength
                })
            }),
    {
        let n = pure_records.len();
        if binary_records.len() != n {
            return Err(ParameterError::BinaryRecordsShape);
        }
        let mut i: usize = 0;
        while i < n
            invariant
                i <= n,
                n == pure_records@.len(),
                binary_records@.len() == n,
                forall|k: int| 0 <= k < i ==> (#[trigger] binary_records@[k])@.len() == n,
            decreases n - i,
        {
            if binary_records[i].len() != n {
                return Err(ParameterError::BinaryRecordsShape);
            }
            i = i + 1;
        }
        if let Some(j) = &joback_records {
            if j.len() != n {
                return Err(ParameterError::IdealGasRecordsLength);
            }
        }
        Ok(SaftVRQMieParameters { pure_records, binary_records, joback_records })
    }

    /// Number of components.
    pub fn len(&self) -> (r: usize)
        ensures
            r == self.n(),
    {
        self.pure_records.len()
    }

    /// A new, independent parameter set for the components `component_list`,
    /// in that order.
    pub fn subset(&self, component_list: &[usize]) -> (r: Self)
        requires
            self.wf(),
            indices_in_range(component_list@, self.n()),
        ensures
            r.wf(),
            r.pure_records@ == select(self.pure_records@, component_list@),
            r.binary() == select_square(self.binary(), component_list@),
            r.joback_records is Some <==> self.joback_records is Some,
            r.joback_records matches Some(j) ==> j@ == select(
                self.joback_records->Some_0@,
                component_list@,
            ),
    {
        let pure_records = select_items(&self.pure_records, component_list);
        let mut binary_records: Vec<Vec<B>> = Vec::with_capacity(component_list.len());
        let mut a: usize = 0;
        while a < component_list.len()
            invariant
                self.wf(),
                indices_in_range(component_list@, self.n()),
                a <= component_list@.len(),
                binary_records@.len() == a,
                forall|x: int|
                    0 <= x < a ==> (#[trigger] binary_records@[x])@ == select(
                        self.binary_records@[component_list@[x] as int]@,
                        component_list@,
                    ),
            decreases component_list@.len() - a,
        {
            let row = select_items(&self.binary_records[component_list[a]], component_list);
            binary_records.push(row);
            a = a + 1;
        }
        let joback_records = match &self.joback_records {
            Some(j) => Some(select_items(j, component_list)),
            None => None,
        };
        let r = SaftVRQMieParameters { pure_records, binary_records, joback_records };
        assert(r.binary() =~= select_square(self.binary(), component_list@)) by {
            assert forall|x: int| 0 <= x < component_list@.len() implies r.binary()[x] =~= select_square(self.binary(), component_list@)[x] by {
                assert(binary_records@[x]@ == select(self.binary_records@[component_list@[x] as int]@, component_list@));
            }
        }
        r
    }
}

/// The items of `s` at the positions `indices`, in that order.
fn select_items<T: Copy>(s: &Vec<T>, indices: &[usize]) -> (r: Vec<T>)
    requires
        indices_in_range(indices@, s@.len()),
    ensures
        r@ == select(s@, indices@),
{
    let mut r: Vec<T> = Vec::with_capacity(indices.len());
    let mut k: usize = 0;
    while k < indices.len()
        invariant
            indices_in_range(indices@, s@.len()),
            k <= indices@.len(),
            r@ =~= select(s@, indices@.take(k as int)),
        decreases indices@.len() - k,
    {
        r.push(s[indices[k]]);
        k = k + 1;
        assert(r@ =~= select(s@, indices@.take(k as int)));
    }
    assert(indices@.take(k as int) =~= indices@);
    r
}

/// A copy of `s`.
pub(crate) fn copy_items<T: Copy>(s: &Vec<T>) -> (r: Vec<T>)
    ensures
        r@ == s@,
{
    let mut r: Vec<T> = Vec::with_capacity(s.len());
    let mut k: usize = 0;
    while k < s.len()
        invariant
            k <= s@.len(),
            r@ =~= s@.take(k as int),
        decreases s@.len() - k,
    {
        r.push(s[k]);
        k = k + 1;
        assert(r@ =~= s@.take(k as int));
    }
    assert(s@.take(k as int) =~= s@);
    r
}

/// Restricting a parameter set to all of its components, in order, gives
/// back the same records.
pub proof fn lemma_identity_subset_keeps_parameters<P: Copy, B: Copy, I: Copy>(
    params: SaftVRQMieParameters<P, B, I>,
    component_list: Seq<usize>,
)
    requires
        params.wf(),
        is_identity(component_list, params.n()),
    ensures
        select(params.pure_records@, component_list) == params.pure_records@,
        select_square(params.binary(), component_list) == params.binary(),
        params.joback_records matches Some(j) ==> select(j@, component_list) == j@,
{
    assert(select(params.pure_records@, component_list) =~= params.pure_records@);
    assert(select_square(params.binary(), component_list) =~= params.binary()) by {
        assert forall|a: int| 0 <= a < params.n() implies select_square(params.binary(), component_list)[a] =~= params.binary()[a] by {
            assert(params.binary_records@[a]@.len() == params.n());
        }
    }
    if let Some(j) = params.joback_records {
        assert(select(j@, component_list) =~= j@);
    }
}

} // verus!
