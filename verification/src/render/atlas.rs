use crate::render::pipelines::terrain::BlockVertex;
use crate::render::DeviceLimits;
use vstd::prelude::*;

verus! {

/// What a block is made of. Each material owns one tile of the atlas.
#[allow(non_camel_case_types)]
#[derive(Clone, Copy, Debug, PartialEq, Eq, Structural)]
pub enum MaterialType {
    GRASS,
    DIRT,
    STONE,
}

impl MaterialType {
    /// The number of the material's tile, counted row by row from the atlas's top left.
    pub open spec fn tile(self) -> nat {
        match self {
            MaterialType::GRASS => 0,
            MaterialType::DIRT => 1,
            MaterialType::STONE => 2,
        }
    }

    pub fn tile_index(self) -> (index: u32)
        ensures
            index == self.tile(),
    {
        match self {
            MaterialType::GRASS => 0,
            MaterialType::DIRT => 1,
            MaterialType::STONE => 2,
        }
    }
}

/// A decoded atlas image as it is handed over for upload: a grid of square tiles
/// in RGBA, four bytes a texel.
#[derive(Clone, Copy, Debug, PartialEq, Eq, Structural)]
pub struct AtlasImage {
    /// Tiles in a row.
    pub columns: u32,
    /// Rows of tiles.
    pub rows: u32,
    /// Edge of one tile, in texels.
    pub tile_size: u32,
    /// Number of bytes of texel data that came with the image.
    pub data_len: u64,
}

impl AtlasImage {
    pub open spec fn width(self) -> int {
        self.columns * self.tile_size
    }

    pub open spec fn height(self) -> int {
        self.rows * self.tile_size
    }

    /// The image has no texel at all.
    pub open spec fn is_empty(self) -> bool {
        self.columns == 0 || self.rows == 0 || self.tile_size == 0
    }

    /// The image is wider or higher than the device takes.
    pub open spec fn exceeds(self, limits: DeviceLimits) -> bool {
        self.width() > limits.max_texture_dimension_2d || self.height()
            > limits.max_texture_dimension_2d
    }

    /// The data is exactly what the dimensions call for.
    pub open spec fn data_fits(self) -> bool {
        self.data_len == self.width() * self.height() * 4
    }
}

/// A rectangle of the atlas texture, in texels.
#[derive(Clone, Copy, Debug, PartialEq, Eq, Structural)]
pub struct Region {
    pub x: u32,
    pub y: u32,
    pub width: u32,
    pub height: u32,
}

/// Why an atlas could not be built.
#[derive(Clone, Copy, Debug, PartialEq, Eq, Structural)]
pub enum AtlasError {
    /// The image has no tiles, or tiles without texels.
    Empty,
    /// The image is larger than the device's textures may be.
    TooLarge,
    /// The texel data does not have the length the dimensions call for.
    Undecodable,
}

/// The layout of the uploaded atlas texture. It does not change once built.
#[derive(Clone, Copy, Debug, PartialEq, Eq)]
pub struct Atlas {
    columns: u32,
    rows: u32,
    tile_size: u32,
}

/// What `Atlas::new` answers for an image on a device.
pub open spec fn atlas_outcome(limits: DeviceLimits, image: AtlasImage) -> Result<
    (),
    AtlasError,
> {
    if image.is_empty() {
        Err(AtlasError::Empty)
    } else if image.exceeds(limits) {
        Err(AtlasError::TooLarge)
    } else if !image.data_fits() {
        Err(AtlasError::Undecodable)
    } else {
        Ok(())
    }
}

impl Atlas {
    #[verifier::type_invariant]
    spec fn inv(self) -> bool {
        &&& self.columns > 0
        &&& self.rows > 0
        &&& self.tile_size > 0
        &&& self.columns * self.tile_size <= u32::MAX
        &&& self.rows * self.tile_size <= u32::MAX
    }

    pub closed spec fn columns(self) -> nat {
        self.columns as nat
    }

    pub closed spec fn rows(self) -> nat {
        self.rows as nat
    }

    pub closed spec fn tile_size(self) -> nat {
        self.tile_size as nat
    }

    /// Whether the atlas has a tile for the material.
    pub open spec fn covers(self, material: MaterialType) -> bool {
        material.tile() < self.columns() * self.rows()
    }

    /// The material's tile as a rectangle of the texture. Tiles are laid out row by row.
    pub open spec fn region_of(self, material: MaterialType) -> Region
        recommends
            self.covers(material),
    {
        Region {
            x: ((material.tile() % self.columns()) * self.tile_size()) as u32,
            y: ((material.tile() / self.columns()) * self.tile_size()) as u32,
            width: self.tile_size() as u32,
            height: self.tile_size() as u32,
        }
    }

    /// Lays out the atlas for a decoded image, or says why the image cannot be used.
    pub fn new(limits: &DeviceLimits, image: &AtlasImage) -> (result: Result<Atlas, AtlasError>)
        ensures
            match result {
                Ok(atlas) => {
                    &&& atlas_outcome(*limits, *image) is Ok
                    &&& atlas.columns() == image.columns
                    &&& atlas.rows() == image.rows
                    &&& atlas.tile_size() == image.tile_size
                },
                Err(error) => atlas_outcome(*limits, *image) == Err::<(), AtlasError>(error),
            },
    {
        if image.columns == 0 || image.rows == 0 || image.tile_size == 0 {
            return Err(AtlasError::Empty);
        }
        let max: u64 = limits.max_texture_dimension_2d as u64;
        assert(image.columns * image.tile_size <= u64::MAX && image.rows * image.tile_size
            <= u64::MAX) by (nonlinear_arith)
            requires
                image.columns <= u32::MAX,
                image.rows <= u32::MAX,
                image.tile_size <= u32::MAX,
        ;
        let width: u64 = image.columns as u64 * image.tile_size as u64;
        let height: u64 = image.rows as u64 * image.tile_size as u64;
        if width > max || height > max {
            return Err(AtlasError::TooLarge);
        }
        // Four bytes a texel; both edges fit in 32 bits, so the count fits in 128.
        assert(width * height * 4 <= u128::MAX) by (nonlinear_arith)
            requires
                width <= u32::MAX,
                height <= u32::MAX,
        ;
        let bytes: u128 = width as u128 * height as u128 * 4;
        if image.data_len as u128 != bytes {
            return Err(AtlasError::Undecodable);
        }
        Ok(Atlas { columns: image.columns, rows: image.rows, tile_size: image.tile_size })
    }

    pub fn width(&self) -> (texels: u32)
        ensures
            texels == self.columns() * self.tile_size(),
    {
        proof {
            use_type_invariant(self);
        }
        self.columns * self.tile_size
    }

    pub fn height(&self) -> (texels: u32)
        ensures
            texels == self.rows() * self.tile_size(),
    {
        proof {
            use_type_invariant(self);
        }
        self.rows * self.tile_size
    }

    /// The material's tile, if the atlas has one for it.
    pub fn region(&self, material: MaterialType) -> (region: Option<Region>)
        ensures
            region == if self.covers(material) {
                Some(self.region_of(material))
            } else {
                None
            },
            region matches Some(tile) ==> tile.x + tile.width <= self.columns() * self.tile_size()
                && tile.y + tile.height <= self.rows() * self.tile_size(),
    {
        proof {
            use_type_invariant(self);
        }
        let tile: u32 = material.tile_index();
        let column: u32 = tile % self.columns;
        let row: u32 = tile / self.columns;
        if row >= self.rows {
            assert(!self.covers(material)) by (nonlinear_arith)
                requires
                    material.tile() / (self.columns as nat) >= self.rows,
                    self.columns > 0,
                    self.covers(material) == (material.tile() < self.columns() * self.rows()),
                    self.columns() == self.columns,
                    self.rows() == self.rows,
            ;
            return None;
        }
        assert(self.covers(material)) by (nonlinear_arith)
            requires
                material.tile() / (self.columns as nat) < self.rows,
                self.columns > 0,
                self.covers(material) == (material.tile() < self.columns() * self.rows()),
                self.columns() == self.columns,
                self.rows() == self.rows,
        ;
        assert(column * self.tile_size + self.tile_size <= self.columns * self.tile_size && row
            * self.tile_size + self.tile_size <= self.rows * self.tile_size) by (nonlinear_arith)
            requires
                column < self.columns,
                row < self.rows,
        ;
        Some(
            Region {
                x: column * self.tile_size,
                y: row * self.tile_size,
                width: self.tile_size,
                height: self.tile_size,
            },
        )
    }

    /// The place in the texture of a vertex's texture coordinates: a corner of
    /// its material's tile.
    pub open spec fn texel_of(self, vertex: BlockVertex) -> (u32, u32)
        recommends
            self.covers(vertex.material),
    {
        let region = self.region_of(vertex.material);
        (
            if vertex.u == 0 {
                region.x
            } else {
                (region.x + region.width) as u32
            },
            if vertex.v == 0 {
                region.y
            } else {
                (region.y + region.height) as u32
            },
        )
    }

    /// The place in the texture that a vertex is textured from, if the atlas has
    /// a tile for its material. It lies within the texture.
    pub fn texel(&self, vertex: &BlockVertex) -> (texel: Option<(u32, u32)>)
        ensures
            texel == if self.covers(vertex.material) {
                Some(self.texel_of(*vertex))
            } else {
                None
            },
            texel matches Some(place) ==> place.0 <= self.columns() * self.tile_size() && place.1
                <= self.rows() * self.tile_size(),
    {
        proof {
            use_type_invariant(self);
        }
        let region = match self.region(vertex.material) {
            Some(region) => region,
            None => {
                return None;
            },
        };
        let x: u32 = if vertex.u == 0 {
            region.x
        } else {
            region.x + region.width
        };
        let y: u32 = if vertex.v == 0 {
            region.y
        } else {
            region.y + region.height
        };
        Some((x, y))
    }
}

} // verus!
