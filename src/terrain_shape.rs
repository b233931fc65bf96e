use vstd::prelude::*;
use crate::isometric::Position;

verus! {

/// A static terrain element placed at a world point.
#[derive(Clone, Copy, Debug, PartialEq, Eq, Structural)]
pub struct TerrainShapeDrawable {
    pub position: Position,
}

impl TerrainShapeDrawable {
    pub fn new(position: Position) -> (r: TerrainShapeDrawable)
        ensures
            r.position == position,
    {
        TerrainShapeDrawable { position }
    }
}

/// The static terrain elements of the level.
pub struct TerrainShapeObjects {
    pub objects: Vec<TerrainShapeDrawable>,
}

impl TerrainShapeObjects {
    /// The level's elements: one shape at (-15, 234).
    pub fn new() -> (r: TerrainShapeObjects)
        ensures
            r.objects@ == seq![TerrainShapeDrawable { position: Position { x: -15i64, y: 234i64 } }],
    {
        let objects = vec![TerrainShapeDrawable::new(Position::new(-15, 234))];
        assert(objects@ =~= seq![TerrainShapeDrawable { position: Position { x: -15i64, y: 234i64 } }]);
        TerrainShapeObjects { objects }
    }
}

} // verus!
