use vstd::prelude::*;

verus! {

/// One specialization constant: its id and where its 4 bytes sit in the
/// constant data.
#[derive(Debug, Clone, Copy, PartialEq, Eq, Structural)]
pub struct SpecializationEntry {
    pub constant_id: u32,
    pub offset: u32,
    pub size: u32,
}

/// The map of `count` specialization constants of 4 bytes each, packed in
/// order: entry `i` has id `i` and offset `4 * i`.
pub fn specialization_entries(count: usize) -> (r: Vec<SpecializationEntry>)
    requires
        count <= u32::MAX / 4,
    ensures
        r@.len() == count,
        forall|i: int|
            0 <= i < count ==> #[trigger] r@[i] == (SpecializationEntry {
                constant_id: i as u32,
                offset: (4 * i) as u32,
                size: 4,
            }),
{
    let mut entries: Vec<SpecializationEntry> = Vec::new();
    let mut i: usize = 0;
    while i < count
        invariant
            count <= u32::MAX / 4,
            i <= count,
            entries@.len() == i,
            forall|j: int|
                0 <= j < i ==> #[trigger] entries@[j] == (SpecializationEntry {
                    constant_id: j as u32,
                    offset: (4 * j) as u32,
                    size: 4,
                }),
        decreases count - i,
    {
        entries.push(SpecializationEntry { constant_id: i as u32, offset: 4 * (i as u32), size: 4 });
        i = i + 1;
    }
    entries
}

/// The constants handed to a compute shader: the three work-group sizes as
/// constants 0, 1 and 2, then the additional ones in order.
pub open spec fn specialization_values(group_sizes: [u32; 3], additional: Seq<u32>) -> Seq<u32> {
    group_sizes@ + additional
}

/// Lays out the specialization constants: the values, and one entry of 4
/// bytes per value, entry `i` with id `i` at offset `4 * i`.
pub fn specialization_constants(group_sizes: [u32; 3], additional: &Vec<u32>) -> (r: (
    Vec<u32>,
    Vec<SpecializationEntry>,
))
    requires
        additional@.len() + 3 <= u32::MAX / 4,
    ensures
        r.0@ == specialization_values(group_sizes, additional@),
        r.1@.len() == r.0@.len(),
        forall|i: int|
            0 <= i < r.1@.len() ==> #[trigger] r.1@[i] == (SpecializationEntry {
                constant_id: i as u32,
                offset: (4 * i) as u32,
                size: 4,
            }),
{
    let mut values: Vec<u32> = Vec::new();
    values.push(group_sizes[0]);
    values.push(group_sizes[1]);
    values.push(group_sizes[2]);
    let mut k: usize = 0;
    while k < additional.len()
        invariant
            k <= additional@.len(),
            values@ == group_sizes@ + additional@.subrange(0, k as int),
        decreases additional@.len() - k,
    {
        values.push(additional[k]);
        assert(additional@.subrange(0, k + 1) =~= additional@.subrange(0, k as int).push(additional@[k as int]));
        k = k + 1;
    }
    assert(additional@.subrange(0, additional@.len() as int) =~= additional@);
    assert(values@ =~= group_sizes@ + additional@);
    let entries = specialization_entries(values.len());
    (values, entries)
}

/// Work groups along one axis: `count / group_size`, at least one.
pub open spec fn groups_along(count: u32, group_size: u32) -> u32
    recommends
        group_size > 0,
{
    let g = count / group_size;
    if g > 1 {
        g
    } else {
        1
    }
}

/// A single-stage compute shader: pipeline, layout, descriptor pool, set
/// layout and sets (raw handles), and its work-group sizes.
pub struct ComputeShader {
    pub pipeline: u64,
    pub layout: u64,
    pub desc_pool: u64,
    pub desc_set_layout: u64,
    pub desc_sets: Vec<u64>,
    pub group_sizes: [u32; 3],
}

impl ComputeShader {
    /// The number of work groups to dispatch for `x` by `y` by `z`
    /// invocations: each count divided by its group size, at least one.
    pub fn group_counts(&self, x: u32, y: u32, z: u32) -> (r: [u32; 3])
        requires
            self.group_sizes[0] > 0,
            self.group_sizes[1] > 0,
            self.group_sizes[2] > 0,
        ensures
            r[0] == groups_along(x, self.group_sizes[0]),
            r[1] == groups_along(y, self.group_sizes[1]),
            r[2] == groups_along(z, self.group_sizes[2]),
    {
        let gx = x / self.group_sizes[0];
        let gy = y / self.group_sizes[1];
        let gz = z / self.group_sizes[2];
        [if gx > 1 { gx } else { 1 }, if gy > 1 { gy } else { 1 }, if gz > 1 { gz } else { 1 }]
    }
}

} // verus!
