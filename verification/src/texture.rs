//! Textures: two-dimensional images and six-face cube maps uploaded to the
//! driver, and the proxy that associates a texture with a named sampler
//! uniform and a fixed texture unit. Decoding image files is a collaborator's
//! job; this layer consumes decoded pixel buffers with their size and format.

use vstd::prelude::*;

use crate::context::{Context, GlCall};
use crate::error::Error;
use crate::shader::ShaderProgram;
use crate::sys;
use crate::types::{
    DataType, MAX_TEXTURE_UNITS, NO_ERROR, TextureCubeMapFaceTarget, TextureFormat,
    TextureParameterName, TextureParameterValue, TextureTarget,
};

verus! {

/// A decoded image as the upload boundary consumes it: pixel bytes plus
/// their dimensions and channel layout.
pub struct ImageData {
    /// The decoded pixel bytes.
    pub pixels: Vec<u8>,
    /// Width in pixels.
    pub width: u32,
    /// Height in pixels.
    pub height: u32,
    /// Channel layout of the pixel bytes.
    pub format: TextureFormat,
}

/// Anything bindable at a texture bind point.
pub trait TextureType {
    /// The owned native handle.
    spec fn texture_id(&self) -> u32;

    /// The bind point this texture belongs to: never a cube-map face.
    spec fn bind_target(&self) -> TextureTarget;

    /// Binds the texture at its bind point. Cannot fail while the handle is
    /// live.
    fn bind(&self, ctx: &mut Context) -> (r: Result<(), Error>)
        requires
            old(ctx).wf(),
            old(ctx).error == NO_ERROR,
            old(ctx).texture_live(self.texture_id()),
        ensures
            final(ctx).wf(),
            final(ctx).error == NO_ERROR,
            r == Ok::<(), Error>(()),
            final(ctx).same_objects(*old(ctx)),
            final(ctx).current_program == old(ctx).current_program,
            final(ctx).bound_vertex_array == old(ctx).bound_vertex_array,
            final(ctx).logged(
                *old(ctx),
                GlCall::BindTexture { target: self.bind_target(), id: self.texture_id() },
            ),
            (self.bind_target() == TextureTarget::Image2D ==> *final(ctx) == (Context {
                bound_texture_2d: self.texture_id(),
                calls: final(ctx).calls,
                ..*old(ctx)
            })),
            (self.bind_target() == TextureTarget::CubeMap ==> *final(ctx) == (Context {
                bound_texture_cube_map: self.texture_id(),
                calls: final(ctx).calls,
                ..*old(ctx)
            })),
    ;
}

/// Associates a texture with a named sampler uniform and a fixed texture
/// unit, chosen at construction time.
pub struct ShaderProgramTexture<'a, Texture: TextureType> {
    /// The texture to bind when drawing.
    pub texture: &'a Texture,
    /// The fixed texture unit the sampler was pointed at.
    pub index: u32,
}

impl<'a, Texture: TextureType> ShaderProgramTexture<'a, Texture> {
    /// Resolves the sampler uniform and points it at texture unit `index`,
    /// enabling the program first. Succeeds exactly when the name resolves
    /// in the program.
    pub fn new(
        ctx: &mut Context,
        texture: &'a Texture,
        shader_program: &ShaderProgram,
        name: &str,
        index: u32,
    ) -> (r: Result<ShaderProgramTexture<'a, Texture>, Error>)
        requires
            old(ctx).wf(),
            old(ctx).error == NO_ERROR,
            shader_program.valid(*old(ctx)),
            index <= i32::MAX,
        ensures
            final(ctx).wf(),
            final(ctx).error == NO_ERROR,
            final(ctx).same_objects(*old(ctx)),
            final(ctx).current_program == shader_program.id,
            *final(ctx) == (Context {
                current_program: shader_program.id,
                calls: final(ctx).calls,
                ..*old(ctx)
            }),
            (r is Ok) == sys::spec_uniform_active(
                old(ctx).program_at(shader_program.id),
                name@,
            ),
            r matches Ok(t) ==> t.index == index && t.texture == texture,
            r is Err ==> (r matches Err(Error::MissingUniform(n)) && n@ == name@),
    {
        match shader_program.enable(ctx) {
            Ok(()) => (),
            Err(e) => {
                proof {
                    assert(false);
                }
                return Err(e);
            },
        }
        let location = match shader_program.locate_uniform(ctx, name) {
            Ok(location) => location,
            Err(e) => {
                return Err(e);
            },
        };
        match sys::set_uniform_i32(ctx, location, index as i32) {
            Ok(()) => (),
            Err(e) => {
                proof {
                    assert(false);
                }
                return Err(Error::Driver(e));
            },
        }
        Ok(ShaderProgramTexture { texture, index })
    }

    /// Selects the texture unit chosen at construction and then binds the
    /// texture: in that order, so the texture lands on the sampler's unit.
    /// Fails exactly when the unit index exceeds the driver's limit.
    pub fn draw(&self, ctx: &mut Context) -> (r: Result<(), Error>)
        requires
            old(ctx).wf(),
            old(ctx).error == NO_ERROR,
            old(ctx).texture_live(self.texture.texture_id()),
        ensures
            final(ctx).wf(),
            final(ctx).error == NO_ERROR,
            final(ctx).same_objects(*old(ctx)),
            final(ctx).current_program == old(ctx).current_program,
            final(ctx).bound_vertex_array == old(ctx).bound_vertex_array,
            self.index < MAX_TEXTURE_UNITS ==> {
                &&& r == Ok::<(), Error>(())
                &&& final(ctx).logged_seq(
                    *old(ctx),
                    seq![
                        GlCall::ActiveTexture { unit: self.index },
                        GlCall::BindTexture {
                            target: self.texture.bind_target(),
                            id: self.texture.texture_id(),
                        },
                    ],
                )
            },
            self.index >= MAX_TEXTURE_UNITS ==> {
                &&& r == Err::<(), Error>(Error::Driver(sys::Error::InvalidEnum))
                &&& final(ctx).unchanged(*old(ctx))
            },
    {
        match sys::active_texture(ctx, self.index) {
            Ok(()) => (),
            Err(e) => {
                return Err(Error::Driver(e));
            },
        }
        match self.texture.bind(ctx) {
            Ok(()) => (),
            Err(e) => {
                proof {
                    assert(false);
                }
                return Err(e);
            },
        }
        proof {
            assert(ctx.calls@ =~= old(ctx).calls@ + seq![
                GlCall::ActiveTexture { unit: self.index },
                GlCall::BindTexture {
                    target: self.texture.bind_target(),
                    id: self.texture.texture_id(),
                },
            ]);
        }
        Ok(())
    }
}

/// A two-dimensional texture image uploaded to the driver.
pub struct TextureImage2D {
    /// The owned native handle.
    pub id: u32,
}

impl TextureImage2D {
    /// The owned handle is live in `ctx`.
    pub open spec fn valid(self, ctx: Context) -> bool {
        ctx.texture_live(self.id)
    }

    /// Creates a texture and uploads one decoded image into it: repeat
    /// wrapping and linear filtering are set, the pixels are uploaded as
    /// 8-bit channels in the given format, and the mipmap chain is
    /// generated. Cannot fail.
    pub fn load_from_memory(
        ctx: &mut Context,
        data: &[u8],
        format: TextureFormat,
        width: u32,
        height: u32,
    ) -> (r: Result<TextureImage2D, Error>)
        requires
            old(ctx).wf(),
            old(ctx).error == NO_ERROR,
            old(ctx).textures@.len() < u32::MAX,
        ensures
            final(ctx).wf(),
            final(ctx).error == NO_ERROR,
            r matches Ok(t) && t.id == old(ctx).textures@.len() + 1 && t.valid(*final(ctx)),
            final(ctx).textures@ == old(ctx).textures@.push(true),
            *final(ctx) == (Context {
                textures: final(ctx).textures,
                bound_texture_2d: final(ctx).bound_texture_2d,
                calls: final(ctx).calls,
                ..*old(ctx)
            }),
            final(ctx).bound_texture_2d == old(ctx).textures@.len() + 1,
            final(ctx).logged_seq(
                *old(ctx),
                seq![
                    GlCall::GenTexture { id: (old(ctx).textures@.len() + 1) as u32 },
                    GlCall::BindTexture {
                        target: TextureTarget::Image2D,
                        id: (old(ctx).textures@.len() + 1) as u32,
                    },
                    GlCall::TexParameter {
                        target: TextureTarget::Image2D,
                        name: TextureParameterName::WrapS,
                        value: TextureParameterValue::Repeat,
                    },
                    GlCall::TexParameter {
                        target: TextureTarget::Image2D,
                        name: TextureParameterName::WrapT,
                        value: TextureParameterValue::Repeat,
                    },
                    GlCall::TexParameter {
                        target: TextureTarget::Image2D,
                        name: TextureParameterName::MinFilter,
                        value: TextureParameterValue::Linear,
                    },
                    GlCall::TexParameter {
                        target: TextureTarget::Image2D,
                        name: TextureParameterName::MagFilter,
                        value: TextureParameterValue::Linear,
                    },
                    GlCall::TexImage2D {
                        target: TextureTarget::Image2D,
                        mipmap_level: 0,
                        internal_format: TextureFormat::RGB,
                        width: width as u64,
                        height: height as u64,
                        data_format: format,
                        data_type: DataType::U8,
                        has_data: true,
                        byte_len: data@.len() as usize,
                    },
                    GlCall::GenerateMipmaps { target: TextureTarget::Image2D },
                ],
            ),
    {
        let id = sys::create_texture(ctx);
        match sys::bind_texture(ctx, id, TextureTarget::Image2D) {
            Ok(()) => (),
            Err(e) => {
                proof {
                    assert(false);
                }
                return Err(Error::Driver(e));
            },
        }
        let p1 = sys::set_texture_parameter_value(
            ctx,
            TextureTarget::Image2D,
            TextureParameterName::WrapS,
            TextureParameterValue::Repeat,
        );
        let p2 = sys::set_texture_parameter_value(
            ctx,
            TextureTarget::Image2D,
            TextureParameterName::WrapT,
            TextureParameterValue::Repeat,
        );
        let p3 = sys::set_texture_parameter_value(
            ctx,
            TextureTarget::Image2D,
            TextureParameterName::MinFilter,
            TextureParameterValue::Linear,
        );
        let p4 = sys::set_texture_parameter_value(
            ctx,
            TextureTarget::Image2D,
            TextureParameterName::MagFilter,
            TextureParameterValue::Linear,
        );
        proof {
            assert(p1 is Ok && p2 is Ok && p3 is Ok && p4 is Ok);
        }
        let up = sys::load_texture_image2d(
            ctx,
            TextureTarget::Image2D,
            0,
            TextureFormat::RGB,
            width as u64,
            height as u64,
            format,
            DataType::U8,
            Some(data),
        );
        let mm = sys::generate_mipmaps(ctx, TextureTarget::Image2D);
        proof {
            assert(up is Ok && mm is Ok);
            assert(ctx.calls@ =~= old(ctx).calls@ + seq![
                GlCall::GenTexture { id },
                GlCall::BindTexture { target: TextureTarget::Image2D, id },
                GlCall::TexParameter {
                    target: TextureTarget::Image2D,
                    name: TextureParameterName::WrapS,
                    value: TextureParameterValue::Repeat,
                },
                GlCall::TexParameter {
                    target: TextureTarget::Image2D,
                    name: TextureParameterName::WrapT,
                    value: TextureParameterValue::Repeat,
                },
                GlCall::TexParameter {
                    target: TextureTarget::Image2D,
                    name: TextureParameterName::MinFilter,
                    value: TextureParameterValue::Linear,
                },
                GlCall::TexParameter {
                    target: TextureTarget::Image2D,
                    name: TextureParameterName::MagFilter,
                    value: TextureParameterValue::Linear,
                },
                GlCall::TexImage2D {
                    target: TextureTarget::Image2D,
                    mipmap_level: 0,
                    internal_format: TextureFormat::RGB,
                    width: width as u64,
                    height: height as u64,
                    data_format: format,
                    data_type: DataType::U8,
                    has_data: true,
                    byte_len: data@.len() as usize,
                },
                GlCall::GenerateMipmaps { target: TextureTarget::Image2D },
            ]);
        }
        Ok(TextureImage2D { id })
    }

    /// Releases the owned handle: exactly one delete call is issued.
    pub fn destroy(self, ctx: &mut Context)
        requires
            old(ctx).wf(),
            old(ctx).error == NO_ERROR,
            self.valid(*old(ctx)),
        ensures
            final(ctx).wf(),
            final(ctx).error == NO_ERROR,
            !final(ctx).texture_live(self.id),
            final(ctx).textures@ == old(ctx).textures@.update(self.id - 1, false),
            *final(ctx) == (Context {
                textures: final(ctx).textures,
                bound_texture_2d: final(ctx).bound_texture_2d,
                bound_texture_cube_map: final(ctx).bound_texture_cube_map,
                calls: final(ctx).calls,
                ..*old(ctx)
            }),
            final(ctx).logged(*old(ctx), GlCall::DeleteTexture { id: self.id }),
    {
        let r = sys::delete_texture(ctx, self.id);
        proof {
            assert(r is Ok);
        }
    }
}

impl TextureType for TextureImage2D {
    open spec fn texture_id(&self) -> u32 {
        self.id
    }

    open spec fn bind_target(&self) -> TextureTarget {
        TextureTarget::Image2D
    }

    fn bind(&self, ctx: &mut Context) -> (r: Result<(), Error>) {
        match sys::bind_texture(ctx, self.id, TextureTarget::Image2D) {
            Ok(()) => Ok(()),
            Err(e) => {
                proof {
                    assert(false);
                }
                Err(Error::Driver(e))
            },
        }
    }
}

/// One value per cube-map face.
pub struct CubeMap<Data> {
    pub right: Data,
    pub left: Data,
    pub top: Data,
    pub bottom: Data,
    pub back: Data,
    pub front: Data,
}

impl<D> CubeMap<D> {
    /// The face a face target names.
    pub open spec fn spec_face(&self, face_target: TextureCubeMapFaceTarget) -> &D {
        match face_target {
            TextureCubeMapFaceTarget::Right => &self.right,
            TextureCubeMapFaceTarget::Left => &self.left,
            TextureCubeMapFaceTarget::Top => &self.top,
            TextureCubeMapFaceTarget::Bottom => &self.bottom,
            TextureCubeMapFaceTarget::Back => &self.back,
            TextureCubeMapFaceTarget::Front => &self.front,
        }
    }

    /// Picks the face a face target names.
    pub fn get_face(&self, face_target: TextureCubeMapFaceTarget) -> (r: &D)
        ensures
            r == self.spec_face(face_target),
    {
        match face_target {
            TextureCubeMapFaceTarget::Right => &self.right,
            TextureCubeMapFaceTarget::Left => &self.left,
            TextureCubeMapFaceTarget::Top => &self.top,
            TextureCubeMapFaceTarget::Bottom => &self.bottom,
            TextureCubeMapFaceTarget::Back => &self.back,
            TextureCubeMapFaceTarget::Front => &self.front,
        }
    }
}

/// A six-face cube-map texture: six decoded images uploaded into one handle
/// under the six fixed face targets.
pub struct TextureCubeMap {
    /// The owned native handle.
    pub id: u32,
}

/// The upload command for one cube-map face.
pub open spec fn spec_face_upload(face: TextureCubeMapFaceTarget, image: ImageData) -> GlCall {
    GlCall::TexImage2D {
        target: TextureTarget::CubeMapFace(face),
        mipmap_level: 0,
        internal_format: TextureFormat::RGB,
        width: image.width as u64,
        height: image.height as u64,
        data_format: image.format,
        data_type: DataType::U8,
        has_data: true,
        byte_len: image.pixels@.len() as usize,
    }
}

impl TextureCubeMap {
    /// The owned handle is live in `ctx`.
    pub open spec fn valid(self, ctx: Context) -> bool {
        ctx.texture_live(self.id)
    }

    /// Uploads one face of the bound cube map.
    fn upload_face(ctx: &mut Context, face: TextureCubeMapFaceTarget, image: &ImageData) -> (r:
        Result<(), Error>)
        requires
            old(ctx).wf(),
            old(ctx).error == NO_ERROR,
        ensures
            final(ctx).wf(),
            final(ctx).error == NO_ERROR,
            r == Ok::<(), Error>(()),
            final(ctx).log_only(*old(ctx), spec_face_upload(face, *image)),
    {
        match sys::load_texture_image2d(
            ctx,
            TextureTarget::CubeMapFace(face),
            0,
            TextureFormat::RGB,
            image.width as u64,
            image.height as u64,
            image.format,
            DataType::U8,
            Some(image.pixels.as_slice()),
        ) {
            Ok(()) => Ok(()),
            Err(e) => {
                proof {
                    assert(false);
                }
                Err(Error::Driver(e))
            },
        }
    }

    /// Creates a cube-map texture and uploads the six decoded face images
    /// into it under the six fixed face targets, in a fixed face order, with
    /// clamped wrapping and linear filtering. Cannot fail.
    pub fn load_from_memory(ctx: &mut Context, faces: &CubeMap<ImageData>) -> (r: Result<
        TextureCubeMap,
        Error,
    >)
        requires
            old(ctx).wf(),
            old(ctx).error == NO_ERROR,
            old(ctx).textures@.len() < u32::MAX,
        ensures
            final(ctx).wf(),
            final(ctx).error == NO_ERROR,
            r matches Ok(t) && t.id == old(ctx).textures@.len() + 1 && t.valid(*final(ctx)),
            final(ctx).textures@ == old(ctx).textures@.push(true),
            *final(ctx) == (Context {
                textures: final(ctx).textures,
                bound_texture_cube_map: final(ctx).bound_texture_cube_map,
                calls: final(ctx).calls,
                ..*old(ctx)
            }),
            final(ctx).bound_texture_cube_map == old(ctx).textures@.len() + 1,
            final(ctx).logged_seq(
                *old(ctx),
                seq![
                    GlCall::GenTexture { id: (old(ctx).textures@.len() + 1) as u32 },
                    GlCall::BindTexture {
                        target: TextureTarget::CubeMap,
                        id: (old(ctx).textures@.len() + 1) as u32,
                    },
                    GlCall::TexParameter {
                        target: TextureTarget::CubeMap,
                        name: TextureParameterName::WrapS,
                        value: TextureParameterValue::ClampToEdge,
                    },
                    GlCall::TexParameter {
                        target: TextureTarget::CubeMap,
                        name: TextureParameterName::WrapT,
                        value: TextureParameterValue::ClampToEdge,
                    },
                    GlCall::TexParameter {
                        target: TextureTarget::CubeMap,
                        name: TextureParameterName::WrapR,
                        value: TextureParameterValue::ClampToEdge,
                    },
                    GlCall::TexParameter {
                        target: TextureTarget::CubeMap,
                        name: TextureParameterName::MinFilter,
                        value: TextureParameterValue::Linear,
                    },
                    GlCall::TexParameter {
                        target: TextureTarget::CubeMap,
                        name: TextureParameterName::MagFilter,
                        value: TextureParameterValue::Linear,
                    },
                    spec_face_upload(TextureCubeMapFaceTarget::Right, faces.right),
                    spec_face_upload(TextureCubeMapFaceTarget::Left, faces.left),
                    spec_face_upload(TextureCubeMapFaceTarget::Top, faces.top),
                    spec_face_upload(TextureCubeMapFaceTarget::Bottom, faces.bottom),
                    spec_face_upload(TextureCubeMapFaceTarget::Back, faces.back),
                    spec_face_upload(TextureCubeMapFaceTarget::Front, faces.front),
                ],
            ),
    {
        let id = sys::create_texture(ctx);
        match sys::bind_texture(ctx, id, TextureTarget::CubeMap) {
            Ok(()) => (),
            Err(e) => {
                proof {
                    assert(false);
                }
                return Err(Error::Driver(e));
            },
        }
        let p1 = sys::set_texture_parameter_value(
            ctx,
            TextureTarget::CubeMap,
            TextureParameterName::WrapS,
            TextureParameterValue::ClampToEdge,
        );
        let p2 = sys::set_texture_parameter_value(
            ctx,
            TextureTarget::CubeMap,
            TextureParameterName::WrapT,
            TextureParameterValue::ClampToEdge,
        );
        let p3 = sys::set_texture_parameter_value(
            ctx,
            TextureTarget::CubeMap,
            TextureParameterName::WrapR,
            TextureParameterValue::ClampToEdge,
        );
        let p4 = sys::set_texture_parameter_value(
            ctx,
            TextureTarget::CubeMap,
            TextureParameterName::MinFilter,
            TextureParameterValue::Linear,
        );
        let p5 = sys::set_texture_parameter_value(
            ctx,
            TextureTarget::CubeMap,
            TextureParameterName::MagFilter,
            TextureParameterValue::Linear,
        );
        proof {
            assert(p1 is Ok && p2 is Ok && p3 is Ok && p4 is Ok && p5 is Ok);
        }
        let u1 = Self::upload_face(
            ctx,
            TextureCubeMapFaceTarget::Right,
            faces.get_face(TextureCubeMapFaceTarget::Right),
        );
        let u2 = Self::upload_face(
            ctx,
            TextureCubeMapFaceTarget::Left,
            faces.get_face(TextureCubeMapFaceTarget::Left),
        );
        let u3 = Self::upload_face(
            ctx,
            TextureCubeMapFaceTarget::Top,
            faces.get_face(TextureCubeMapFaceTarget::Top),
        );
        let u4 = Self::upload_face(
            ctx,
            TextureCubeMapFaceTarget::Bottom,
            faces.get_face(TextureCubeMapFaceTarget::Bottom),
        );
        let u5 = Self::upload_face(
            ctx,
            TextureCubeMapFaceTarget::Back,
            faces.get_face(TextureCubeMapFaceTarget::Back),
        );
        let u6 = Self::upload_face(
            ctx,
            TextureCubeMapFaceTarget::Front,
            faces.get_face(TextureCubeMapFaceTarget::Front),
        );
        proof {
            assert(u1 is Ok && u2 is Ok && u3 is Ok && u4 is Ok && u5 is Ok && u6 is Ok);
            assert(ctx.calls@ =~= old(ctx).calls@ + seq![
                GlCall::GenTexture { id },
                GlCall::BindTexture { target: TextureTarget::CubeMap, id },
                GlCall::TexParameter {
                    target: TextureTarget::CubeMap,
                    name: TextureParameterName::WrapS,
                    value: TextureParameterValue::ClampToEdge,
                },
                GlCall::TexParameter {
                    target: TextureTarget::CubeMap,
                    name: TextureParameterName::WrapT,
                    value: TextureParameterValue::ClampToEdge,
                },
                GlCall::TexParameter {
                    target: TextureTarget::CubeMap,
                    name: TextureParameterName::WrapR,
                    value: TextureParameterValue::ClampToEdge,
                },
                GlCall::TexParameter {
                    target: TextureTarget::CubeMap,
                    name: TextureParameterName::MinFilter,
                    value: TextureParameterValue::Linear,
                },
                GlCall::TexParameter {
                    target: TextureTarget::CubeMap,
                    name: TextureParameterName::MagFilter,
                    value: TextureParameterValue::Linear,
                },
                spec_face_upload(TextureCubeMapFaceTarget::Right, faces.right),
                spec_face_upload(TextureCubeMapFaceTarget::Left, faces.left),
                spec_face_upload(TextureCubeMapFaceTarget::Top, faces.top),
                spec_face_upload(TextureCubeMapFaceTarget::Bottom, faces.bottom),
                spec_face_upload(TextureCubeMapFaceTarget::Back, faces.back),
                spec_face_upload(TextureCubeMapFaceTarget::Front, faces.front),
            ]);
        }
        Ok(TextureCubeMap { id })
    }

    /// Releases the owned handle: exactly one delete call is issued.
    pub fn destroy(self, ctx: &mut Context)
        requires
            old(ctx).wf(),
            old(ctx).error == NO_ERROR,
            self.valid(*old(ctx)),
        ensures
            final(ctx).wf(),
            final(ctx).error == NO_ERROR,
            !final(ctx).texture_live(self.id),
            final(ctx).textures@ == old(ctx).textures@.update(self.id - 1, false),
            *final(ctx) == (Context {
                textures: final(ctx).textures,
                bound_texture_2d: final(ctx).bound_texture_2d,
                bound_texture_cube_map: final(ctx).bound_texture_cube_map,
                calls: final(ctx).calls,
                ..*old(ctx)
            }),
            final(ctx).logged(*old(ctx), GlCall::DeleteTexture { id: self.id }),
    {
        let r = sys::delete_texture(ctx, self.id);
        proof {
            assert(r is Ok);
        }
    }
}

impl TextureType for TextureCubeMap {
    open spec fn texture_id(&self) -> u32 {
        self.id
    }

    open spec fn bind_target(&self) -> TextureTarget {
        TextureTarget::CubeMap
    }

    fn bind(&self, ctx: &mut Context) -> (r: Result<(), Error>) {
        match sys::bind_texture(ctx, self.id, TextureTarget::CubeMap) {
            Ok(()) => Ok(()),
            Err(e) => {
                proof {
                    assert(false);
                }
                Err(Error::Driver(e))
            },
        }
    }
}

} // verus!
