//! The geometry of the cube that the renderer draws.
use vstd::prelude::*;

verus! {

/// The number of faces of the cube.
pub const FACES: usize = 6;

/// Whether each coordinate of a corner is -1 or 1.
pub open spec fn is_corner(p: [i8; 3]) -> bool {
    forall|k: int| 0 <= k < 3 ==> (p[k] == -1 || p[k] == 1)
}

/// Whether four corners lie on one face of the cube: they agree on one axis.
pub open spec fn on_one_face(a: [i8; 3], b: [i8; 3], c: [i8; 3], d: [i8; 3]) -> bool {
    exists|k: int| 0 <= k < 3 && a[k] == b[k] && b[k] == c[k] && c[k] == d[k]
}

/// The cube with corners at (±1, ±1, ±1): four corners per face, listed
/// face after face, and two triangles per face as indices into them
/// (corners 0, 1, 2 and 2, 3, 0 of the face).
pub open spec fn is_cube(v: Seq<[i8; 3]>, idx: Seq<u16>) -> bool {
    &&& v.len() == 4 * FACES
    &&& idx.len() == 6 * FACES
    &&& forall|i: int| 0 <= i < v.len() ==> is_corner(#[trigger] v[i])
    &&& forall|f: int|
        0 <= f < FACES ==> on_one_face(
            #[trigger] v[4 * f],
            v[4 * f + 1],
            v[4 * f + 2],
            v[4 * f + 3],
        )
    &&& forall|f: int|
        #![trigger idx[6 * f]]
        0 <= f < FACES ==> {
            &&& idx[6 * f] == 4 * f
            &&& idx[6 * f + 1] == 4 * f + 1
            &&& idx[6 * f + 2] == 4 * f + 2
            &&& idx[6 * f + 3] == 4 * f + 2
            &&& idx[6 * f + 4] == 4 * f + 3
            &&& idx[6 * f + 5] == 4 * f
        }
    &&& forall|i: int| 0 <= i < idx.len() ==> (#[trigger] idx[i] as int) < v.len()
}

/// Builds the corners and triangle indices of the cube (see `is_cube`).
pub fn create_vertices() -> (r: (Vec<[i8; 3]>, Vec<u16>))
    ensures
        is_cube(r.0@, r.1@),
{
    let vertices: Vec<[i8; 3]> = vec![
        // top (0, 0, 1)
        [-1, -1, 1], [1, -1, 1], [1, 1, 1], [-1, 1, 1],
        // bottom (0, 0, -1)
        [-1, 1, -1], [1, 1, -1], [1, -1, -1], [-1, -1, -1],
        // right (1, 0, 0)
        [1, -1, -1], [1, 1, -1], [1, 1, 1], [1, -1, 1],
        // left (-1, 0, 0)
        [-1, -1, 1], [-1, 1, 1], [-1, 1, -1], [-1, -1, -1],
        // front (0, 1, 0)
        [1, 1, -1], [-1, 1, -1], [-1, 1, 1], [1, 1, 1],
        // back (0, -1, 0)
        [1, -1, 1], [-1, -1, 1], [-1, -1, -1], [1, -1, -1],
    ];
    let mut indices: Vec<u16> = Vec::new();
    let mut f: u16 = 0;
    while f < 6
        invariant
            0 <= f <= 6,
            indices@.len() == 6 * f,
            forall|g: int|
                #![trigger indices@[6 * g]]
                0 <= g < f ==> {
                    &&& indices@[6 * g] == 4 * g
                    &&& indices@[6 * g + 1] == 4 * g + 1
                    &&& indices@[6 * g + 2] == 4 * g + 2
                    &&& indices@[6 * g + 3] == 4 * g + 2
                    &&& indices@[6 * g + 4] == 4 * g + 3
                    &&& indices@[6 * g + 5] == 4 * g
                },
            forall|i: int| 0 <= i < indices@.len() ==> (#[trigger] indices@[i] as int) < 4 * f,
        decreases 6 - f,
    {
        let base: u16 = 4 * f;
        let ghost before = indices@;
        indices.push(base);
        indices.push(base + 1);
        indices.push(base + 2);
        indices.push(base + 2);
        indices.push(base + 3);
        indices.push(base);
        proof {
            assert forall|g: int| 0 <= g < f + 1 implies {
                &&& #[trigger] indices@[6 * g] == 4 * g
                &&& indices@[6 * g + 1] == 4 * g + 1
                &&& indices@[6 * g + 2] == 4 * g + 2
                &&& indices@[6 * g + 3] == 4 * g + 2
                &&& indices@[6 * g + 4] == 4 * g + 3
                &&& indices@[6 * g + 5] == 4 * g
            } by {
                if g < f {
                    assert(6 * g + 5 < 6 * f) by (nonlinear_arith)
                        requires g < f;
                    assert(before[6 * g] == 4 * g);
                }
            }
            assert forall|i: int| 0 <= i < indices@.len() implies (#[trigger] indices@[i] as int) < 4 * (f + 1) by {
                if i >= 6 * f {
                    assert(indices@[i] <= base + 3);
                }
            }
        }
        f = f + 1;
    }
    proof {
        let v = vertices@;
        assert(forall|i: int| 0 <= i < v.len() ==> is_corner(#[trigger] v[i]));
        assert forall|g: int| 0 <= g < FACES implies on_one_face(
            #[trigger] v[4 * g],
            v[4 * g + 1],
            v[4 * g + 2],
            v[4 * g + 3],
        ) by {
            if g == 0 || g == 1 {
                assert(v[4 * g][2] == v[4 * g + 1][2]);
            } else if g == 2 || g == 3 {
                assert(v[4 * g][0] == v[4 * g + 1][0]);
            } else {
                assert(v[4 * g][1] == v[4 * g + 1][1]);
            }
        }
    }
    (vertices, indices)
}

/// The cube that the renderer draws: its corners and its triangles.
#[derive(Debug, Clone)]
pub struct Cube {
    pub vertices: Vec<[i8; 3]>,
    pub indices: Vec<u16>,
}

impl Default for Cube {
    fn default() -> (c: Cube)
        ensures
            is_cube(c.vertices@, c.indices@),
    {
        let (vertices, indices) = create_vertices();
        Cube { vertices, indices }
    }
}

impl Cube {
    /// The number of indices to draw.
    pub fn index_count(&self) -> (n: usize)
        ensures
            n == self.indices@.len(),
    {
        self.indices.len()
    }
}

} // verus!
