use vstd::prelude::*;

verus! {

/// A figure as a list of cells around a position, with the index of the
/// cell it rotates about, if any.
pub struct FigureData {
    pub position: (i32, i32),
    pub sequence: Vec<(i32, i32)>,
    pub rotation_center_index: Option<usize>,
}

impl FigureData {
    pub fn new(position: (i32, i32), sequence: Vec<(i32, i32)>, center: Option<usize>) -> (r: FigureData)
        ensures
            r.position == position,
            r.sequence@ == sequence@,
            r.rotation_center_index == center,
    {
        FigureData { position, sequence, rotation_center_index: center }
    }

    /// The cells of the figure.
    pub fn get_sequence(&self) -> (r: &[(i32, i32)])
        ensures
            r@ == self.sequence@,
    {
        self.sequence.as_slice()
    }
}

/// The cells of the preview figure of each kind, in catalog order.
pub open spec fn preview_cells(kind: int) -> Seq<(i32, i32)> {
    if kind == 0 {
        seq![(-2i32, 0i32), (-1i32, 0), (0, 0), (1, 0), (2, 0)]
    } else if kind == 1 {
        seq![(0i32, 0i32), (1, 0), (0, 1), (1, 1)]
    } else if kind == 2 {
        seq![(-1i32, 0i32), (0, 0), (1, 0), (0, 1)]
    } else if kind == 3 {
        seq![(-1i32, 0i32), (0, 0), (0, 1), (1, 1)]
    } else if kind == 4 {
        seq![(-1i32, -1i32), (0, -1i32), (0, 0), (0, 1)]
    } else if kind == 5 {
        seq![(-1i32, -1i32), (-1i32, 0), (0, 0), (1, 0)]
    } else {
        seq![(-1i32, 0i32), (0, 0), (1, 0), (1, -1i32)]
    }
}

/// The rotation centre of the preview figure of each kind.
pub open spec fn preview_center(kind: int) -> Option<usize> {
    if kind == 0 || kind == 4 || kind == 5 {
        Some(2)
    } else if kind == 1 {
        None
    } else {
        Some(1)
    }
}

fn cells_of(cells: &[(i32, i32)]) -> (r: Vec<(i32, i32)>)
    ensures
        r@ == cells@,
{
    let mut r: Vec<(i32, i32)> = Vec::new();
    let mut i: usize = 0;
    while i < cells.len()
        invariant
            i <= cells@.len(),
            r@ == cells@.subrange(0, i as int),
        decreases cells@.len() - i,
    {
        r.push(cells[i]);
        i = i + 1;
        assert(r@ =~= cells@.subrange(0, i as int));
    }
    assert(cells@.subrange(0, cells@.len() as int) =~= cells@);
    r
}

/// The preview figures of the seven kinds, each at the spawn column.
pub fn initialize_figures() -> (r: Vec<FigureData>)
    ensures
        r@.len() == 7,
        forall|k: int| 0 <= k < 7 ==> (#[trigger] r@[k]).position == (5i32, 0i32) && r@[k].sequence@ == preview_cells(k)
            && r@[k].rotation_center_index == preview_center(k),
{
    let mut result: Vec<FigureData> = Vec::new();
    let i_cells: [(i32, i32); 5] = [(-2, 0), (-1, 0), (0, 0), (1, 0), (2, 0)];
    let o_cells: [(i32, i32); 4] = [(0, 0), (1, 0), (0, 1), (1, 1)];
    let t_cells: [(i32, i32); 4] = [(-1, 0), (0, 0), (1, 0), (0, 1)];
    let s_cells: [(i32, i32); 4] = [(-1, 0), (0, 0), (0, 1), (1, 1)];
    let z_cells: [(i32, i32); 4] = [(-1, -1), (0, -1), (0, 0), (0, 1)];
    let j_cells: [(i32, i32); 4] = [(-1, -1), (-1, 0), (0, 0), (1, 0)];
    let l_cells: [(i32, i32); 4] = [(-1, 0), (0, 0), (1, 0), (1, -1)];
    assert(i_cells@ =~= preview_cells(0));
    assert(o_cells@ =~= preview_cells(1));
    assert(t_cells@ =~= preview_cells(2));
    assert(s_cells@ =~= preview_cells(3));
    assert(z_cells@ =~= preview_cells(4));
    assert(j_cells@ =~= preview_cells(5));
    assert(l_cells@ =~= preview_cells(6));
    result.push(FigureData::new((5, 0), cells_of(&i_cells), Some(2)));
    result.push(FigureData::new((5, 0), cells_of(&o_cells), None));
    result.push(FigureData::new((5, 0), cells_of(&t_cells), Some(1)));
    result.push(FigureData::new((5, 0), cells_of(&s_cells), Some(1)));
    result.push(FigureData::new((5, 0), cells_of(&z_cells), Some(2)));
    result.push(FigureData::new((5, 0), cells_of(&j_cells), Some(2)));
    result.push(FigureData::new((5, 0), cells_of(&l_cells), Some(1)));
    result
}

} // verus!
