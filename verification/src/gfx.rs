//! Sprites: a handle to an image resource together with the part of the
//! image that is drawn.

use crate::data::{Error, NativeRect, Rectangle};
use vstd::prelude::*;

verus! {

/// One copy of a part of an image onto the drawing surface. The source is
/// scaled to fill the destination exactly.
#[derive(Clone, Copy, Debug, PartialEq, Eq, Structural)]
pub struct Blit {
    /// The handle of the image resource.
    pub tex: usize,
    /// The part of the image that is copied.
    pub src: NativeRect,
    /// Where on the surface it goes.
    pub dest: NativeRect,
}

/// The cell in column `col` and row `row` of a grid whose cells are
/// `width` wide and `height` tall, counted from the corner of the grid.
pub open spec fn grid_cell(col: int, row: int, width: u32, height: u32) -> Rectangle {
    Rectangle {
        x: (col * width) as i64,
        y: (row * height) as i64,
        w: width as i64,
        h: height as i64,
    }
}

/// Where the cell in column `col` and row `row` stands when a grid of
/// `columns` columns is laid out row by row.
pub open spec fn grid_index(col: int, row: int, columns: int) -> int {
    row * columns + col
}

/// A drawable part of an image resource. The resource itself stays with
/// whoever loaded it and is named here by its handle; the sprite remembers
/// its natural size and the region that is drawn, which always lies within
/// the image.
#[derive(Clone, Copy, Debug)]
pub struct Sprite {
    tex: usize,
    tex_w: u32,
    tex_h: u32,
    src: Rectangle,
}

impl Sprite {
    #[verifier::type_invariant]
    spec fn inv(self) -> bool {
        self.src.wf() && self.bounds_spec().contains(self.src)
    }

    /// The handle of the image resource.
    pub closed spec fn texture_spec(&self) -> usize {
        self.tex
    }

    /// The whole image: its natural size, with the corner at the origin.
    pub closed spec fn bounds_spec(&self) -> Rectangle {
        Rectangle { x: 0, y: 0, w: self.tex_w as i64, h: self.tex_h as i64 }
    }

    /// The region of the image that is drawn.
    pub closed spec fn source_spec(&self) -> Rectangle {
        self.src
    }

    /// A sprite that shows the whole of an image of the given natural size.
    pub fn new(tex: usize, width: u32, height: u32) -> (sprite: Sprite)
        ensures
            sprite.texture_spec() == tex,
            sprite.bounds_spec() == (Rectangle { x: 0, y: 0, w: width as i64, h: height as i64 }),
            sprite.source_spec() == sprite.bounds_spec(),
    {
        Sprite {
            tex,
            tex_w: width,
            tex_h: height,
            src: Rectangle { x: 0, y: 0, w: width as i64, h: height as i64 },
        }
    }

    /// The handle of the image resource.
    #[verifier::when_used_as_spec(texture_spec)]
    pub fn texture(&self) -> (tex: usize)
        ensures
            tex == self.texture_spec(),
    {
        self.tex
    }

    /// The whole image: its natural size, with the corner at the origin.
    #[verifier::when_used_as_spec(bounds_spec)]
    pub fn bounds(&self) -> (r: Rectangle)
        ensures
            r == self.bounds_spec(),
            r.wf(),
    {
        Rectangle { x: 0, y: 0, w: self.tex_w as i64, h: self.tex_h as i64 }
    }

    /// The region of the image that is drawn. It is well formed and lies
    /// within the image.
    #[verifier::when_used_as_spec(source_spec)]
    pub fn source(&self) -> (r: Rectangle)
        ensures
            r == self.source_spec(),
            r.wf(),
            self.bounds_spec().contains(r),
    {
        proof {
            use_type_invariant(self);
        }
        self.src
    }

    /// The width and height of the region that is drawn.
    pub fn size(&self) -> (s: (i64, i64))
        ensures
            s.0 == self.source_spec().w,
            s.1 == self.source_spec().h,
            s.0 >= 0,
            s.1 >= 0,
    {
        proof {
            use_type_invariant(self);
        }
        (self.src.w, self.src.h)
    }

    /// A sprite of the same image that shows `rect`, a rectangle given in
    /// the coordinates of the region that `self` shows.
    ///
    /// Fails with `InvalidExtent` exactly when `rect` has a negative width
    /// or height, and with `OutOfBounds` exactly when it is well formed but
    /// does not lie entirely within that region.
    pub fn region(&self, rect: Rectangle) -> (r: Result<Sprite, Error>)
        ensures
            r is Ok <==> rect.wf() && self.source_spec().frame().contains(rect),
            r matches Ok(part) ==> {
                &&& part.texture_spec() == self.texture_spec()
                &&& part.bounds_spec() == self.bounds_spec()
                &&& part.source_spec() == self.source_spec().inner(rect)
                &&& self.source_spec().contains(part.source_spec())
            },
            r matches Err(e) ==> e == (if rect.wf() {
                Error::OutOfBounds
            } else {
                Error::InvalidExtent
            }),
    {
        proof {
            use_type_invariant(self);
        }
        if rect.w < 0 || rect.h < 0 {
            return Err(Error::InvalidExtent);
        }
        let frame = Rectangle { x: 0, y: 0, w: self.src.w, h: self.src.h };
        if !frame.contains(rect) {
            return Err(Error::OutOfBounds);
        }
        let src = Rectangle {
            x: self.src.x + rect.x,
            y: self.src.y + rect.y,
            w: rect.w,
            h: rect.h,
        };
        Ok(Sprite { tex: self.tex, tex_w: self.tex_w, tex_h: self.tex_h, src })
    }

    /// Whether a grid of `columns` by `rows` cells of the given size lies
    /// within the region that `self` shows. A grid without cells always
    /// does.
    pub open spec fn grid_fits(&self, columns: u32, rows: u32, width: u32, height: u32) -> bool {
        ||| columns == 0
        ||| rows == 0
        ||| (columns * width <= self.source_spec().w && rows * height <= self.source_spec().h)
    }

    /// Whether `cell` is the sprite that shows the given cell of a grid
    /// laid over the region that `self` shows.
    pub open spec fn shows_cell(&self, cell: Sprite, col: int, row: int, width: u32, height: u32)
        -> bool {
        &&& cell.texture_spec() == self.texture_spec()
        &&& cell.bounds_spec() == self.bounds_spec()
        &&& cell.source_spec() == self.source_spec().inner(grid_cell(col, row, width, height))
    }

    /// Cuts the region that `self` shows into a grid of `columns` by `rows`
    /// cells, each `width` wide and `height` tall, and returns the cells
    /// row by row.
    ///
    /// Fails with `OutOfBounds` exactly when the grid does not lie within
    /// the region.
    pub fn grid(&self, columns: u32, rows: u32, width: u32, height: u32) -> (r: Result<
        Vec<Sprite>,
        Error,
    >)
        ensures
            r is Ok <==> self.grid_fits(columns, rows, width, height),
            r matches Ok(cells) ==> {
                &&& cells@.len() == rows * columns
                &&& forall|col: int, row: int|
                    0 <= col < columns && 0 <= row < rows ==> self.shows_cell(
                        cells@[#[trigger] grid_index(col, row, columns as int)],
                        col,
                        row,
                        width,
                        height,
                    )
            },
            r matches Err(e) ==> e == Error::OutOfBounds,
    {
        proof {
            use_type_invariant(self);
        }
        let mut cells: Vec<Sprite> = Vec::new();
        if columns == 0 || rows == 0 {
            assert(rows * columns == 0) by (nonlinear_arith)
                requires
                    columns == 0 || rows == 0,
            ;
            return Ok(cells);
        }
        assert(columns * width <= 0xFFFF_FFFF * 0xFFFF_FFFF && rows * height <= 0xFFFF_FFFF
            * 0xFFFF_FFFF) by (nonlinear_arith)
            requires
                columns <= 0xFFFF_FFFF,
                width <= 0xFFFF_FFFF,
                rows <= 0xFFFF_FFFF,
                height <= 0xFFFF_FFFF,
        ;
        if columns as u64 * width as u64 > self.src.w as u64 || rows as u64 * height as u64
            > self.src.h as u64 {
            return Err(Error::OutOfBounds);
        }
        let mut row: u32 = 0;
        while row < rows
            invariant
                row <= rows,
                columns > 0,
                self.inv(),
                columns * width <= self.src.w,
                rows * height <= self.src.h,
                cells@.len() == row * columns,
                forall|c: int, r: int|
                    0 <= c < columns && 0 <= r < row ==> self.shows_cell(
                        cells@[#[trigger] grid_index(c, r, columns as int)],
                        c,
                        r,
                        width,
                        height,
                    ),
            decreases rows - row,
        {
            let mut col: u32 = 0;
            while col < columns
                invariant
                    col <= columns,
                    row < rows,
                    self.inv(),
                    columns * width <= self.src.w,
                    rows * height <= self.src.h,
                    cells@.len() == row * columns + col,
                    forall|c: int, r: int|
                        0 <= c < columns && 0 <= r < row ==> self.shows_cell(
                            cells@[#[trigger] grid_index(c, r, columns as int)],
                            c,
                            r,
                            width,
                            height,
                        ),
                    forall|c: int|
                        0 <= c < col ==> self.shows_cell(
                            cells@[#[trigger] grid_index(c, row as int, columns as int)],
                            c,
                            row as int,
                            width,
                            height,
                        ),
                decreases columns - col,
            {
                proof {
                    lemma_cell_within(col as int, columns as int, width as int, self.src.w as int);
                    lemma_cell_within(row as int, rows as int, height as int, self.src.h as int);
                }
                let rect = Rectangle {
                    x: width as i64 * col as i64,
                    y: height as i64 * row as i64,
                    w: width as i64,
                    h: height as i64,
                };
                assert(rect == grid_cell(col as int, row as int, width, height));
                let ghost before = cells@;
                match self.region(rect) {
                    Ok(cell) => {
                        cells.push(cell);
                    },
                    Err(e) => {
                        return Err(e);
                    },
                }
                proof {
                    assert forall|c: int, r: int| 0 <= c < columns && 0 <= r < row implies self.shows_cell(
                        cells@[#[trigger] grid_index(c, r, columns as int)],
                        c,
                        r,
                        width,
                        height,
                    ) by {
                        lemma_grid_index_below(c, r, columns as int, row as int);
                        assert(cells@[grid_index(c, r, columns as int)] == before[grid_index(
                            c,
                            r,
                            columns as int,
                        )]);
                    }
                    assert forall|c: int| 0 <= c < col + 1 implies self.shows_cell(
                        cells@[#[trigger] grid_index(c, row as int, columns as int)],
                        c,
                        row as int,
                        width,
                        height,
                    ) by {
                        if c < col {
                            assert(cells@[grid_index(c, row as int, columns as int)] == before[grid_index(
                                c,
                                row as int,
                                columns as int,
                            )]);
                        }
                    }
                }
                col += 1;
            }
            proof {
                assert(row * columns + columns == (row + 1) * columns) by (nonlinear_arith);
            }
            row += 1;
        }
        Ok(cells)
    }

    /// The copy that draws the sprite into `dest`.
    ///
    /// Fails with `InvalidExtent` exactly when `dest` has a negative width
    /// or height, or the region shown or `dest` does not fit the native
    /// range.
    pub fn blit(&self, dest: Rectangle) -> (r: Result<Blit, Error>)
        ensures
            r is Ok <==> self.source_spec().fits_native() && dest.wf() && dest.fits_native(),
            r matches Ok(b) ==> {
                &&& b.tex == self.texture_spec()
                &&& b.src.x == self.source_spec().x
                &&& b.src.y == self.source_spec().y
                &&& b.src.w == self.source_spec().w
                &&& b.src.h == self.source_spec().h
                &&& b.dest.x == dest.x
                &&& b.dest.y == dest.y
                &&& b.dest.w == dest.w
                &&& b.dest.h == dest.h
            },
            r matches Err(e) ==> e == Error::InvalidExtent,
    {
        proof {
            use_type_invariant(self);
        }
        let src = match self.src.to_sdl() {
            Ok(src) => src,
            Err(e) => {
                return Err(e);
            },
        };
        let dest = match dest.to_sdl() {
            Ok(dest) => dest,
            Err(e) => {
                return Err(e);
            },
        };
        Ok(Blit { tex: self.tex, src, dest })
    }
}

/// A cell of a grid that fits into a span lies within that span.
proof fn lemma_cell_within(i: int, count: int, size: int, span: int)
    requires
        0 <= i < count,
        0 <= size,
        count * size <= span,
    ensures
        0 <= size * i,
        size * i == i * size,
        i * size + size <= span,
{
    assert(size * i == i * size) by (nonlinear_arith);
    assert(0 <= i * size) by (nonlinear_arith)
        requires
            0 <= i,
            0 <= size,
    ;
    assert(i * size + size <= count * size) by (nonlinear_arith)
        requires
            0 <= i < count,
            0 <= size,
    ;
}

/// Laid out row by row, the cells of the rows above come before every cell
/// of a row.
proof fn lemma_grid_index_below(col: int, row: int, columns: int, below: int)
    requires
        0 <= col < columns,
        0 <= row < below,
    ensures
        0 <= grid_index(col, row, columns) < below * columns,
{
    assert(0 <= row * columns) by (nonlinear_arith)
        requires
            0 <= row,
            0 <= columns,
    ;
    assert(row * columns + columns <= below * columns) by (nonlinear_arith)
        requires
            0 <= row < below,
            0 <= columns,
    ;
}

} // verus!
