//! The render primitives: clearing the frame background and compositing
//! textured quads onto it, plus loading textures from encoded bytes. Each
//! primitive records exactly the render pass the device must run; the
//! surrounding event loop submits the returned pass and owns the acquired
//! surface image.

use vstd::prelude::*;
use vstd::string::StringExecFns;

use crate::frame::{
    clear_pass, clear_step, draw_step, lemma_clear_preserves_frame_wf,
    lemma_draw_preserves_frame_wf, pixel_to_ndc_quad, quad_matches, Color, RenderPass,
};
use crate::gamma::{Gamma, GammaView, Phase};
use crate::texture::{decode_rgba_of, Texture};

verus! {

impl Gamma {
    /// Clear the frame to the given colour. The first request within a
    /// tick records the single clear pass; every later request in the same
    /// tick is a no-op, whatever colour it asks for. Without a frame (no
    /// GPU context, or the surface image was not acquired this tick)
    /// nothing happens. The returned pass, if any, is what the device must
    /// run.
    pub fn clear_screen(&mut self, r: u8, g: u8, b: u8) -> (p: Option<RenderPass>)
        requires
            old(self).wf(),
        ensures
            final(self).wf(),
            old(self)@.frame matches Some(f) ==> {
                &&& final(self)@ == (GammaView {
                    frame: Some(clear_step(f, (Color { r, g, b }))),
                    ..old(self)@
                })
                &&& p == if f.cleared {
                    None::<RenderPass>
                } else {
                    Some(clear_pass((Color { r, g, b })))
                }
            },
            old(self)@.frame is None ==> final(self)@ == old(self)@ && p is None,
    {
        match &mut self.frame {
            Some(frame) => {
                let pass = frame.record_clear(Color { r, g, b });
                proof {
                    lemma_clear_preserves_frame_wf(old(self)@.frame->Some_0, Color { r, g, b });
                }
                pass
            },
            None => None,
        }
    }

    /// Composite the texture onto the frame at pixel position (x, y) at
    /// its own size. See `draw_texture_scaled`.
    pub fn draw_texture(&mut self, texture: &Texture, x: i32, y: i32) -> (p: Option<RenderPass>)
        requires
            old(self).wf(),
        ensures
            final(self).wf(),
            old(self)@.frame is None ==> final(self)@ == old(self)@ && p is None,
            old(self)@.frame matches Some(f) ==> old(self)@.phase matches Phase::Ready(c)
                ==> {
                &&& p matches Some(pass)
                &&& pass.load is Keep
                &&& pass.quad matches Some(q)
                &&& quad_matches(
                    q,
                    x as int,
                    y as int,
                    texture.width as int,
                    texture.height as int,
                    c.surface_width as int,
                    c.surface_height as int,
                )
                &&& final(self)@ == (GammaView { frame: Some(draw_step(f, q)), ..old(self)@ })
            },
    {
        let w = texture.width;
        let h = texture.height;
        self.draw_texture_scaled(texture, x, y, w, h)
    }

    /// Composite the texture onto the frame as a quad covering the pixel
    /// rectangle at (x, y) of the given size. The recorded pass keeps the
    /// frame's existing pixels, so repeated draws within a tick composite
    /// in call order; drawing does not require a prior clear. Without a
    /// frame nothing happens. The returned pass is what the device must
    /// run.
    pub fn draw_texture_scaled(
        &mut self,
        texture: &Texture,
        x: i32,
        y: i32,
        width: u32,
        height: u32,
    ) -> (p: Option<RenderPass>)
        requires
            old(self).wf(),
        ensures
            final(self).wf(),
            old(self)@.frame is None ==> final(self)@ == old(self)@ && p is None,
            old(self)@.frame matches Some(f) ==> old(self)@.phase matches Phase::Ready(c)
                ==> {
                &&& p matches Some(pass)
                &&& pass.load is Keep
                &&& pass.quad matches Some(q)
                &&& quad_matches(
                    q,
                    x as int,
                    y as int,
                    width as int,
                    height as int,
                    c.surface_width as int,
                    c.surface_height as int,
                )
                &&& final(self)@ == (GammaView { frame: Some(draw_step(f, q)), ..old(self)@ })
            },
    {
        let (sw, sh) = match self.surface_size() {
            Some(d) => d,
            None => {
                return None;
            },
        };
        match &mut self.frame {
            Some(frame) => {
                let q = pixel_to_ndc_quad(x, y, width, height, sw, sh);
                let pass = frame.record_draw(q);
                proof {
                    lemma_draw_preserves_frame_wf(old(self)@.frame->Some_0, q);
                }
                Some(pass)
            },
            None => None,
        }
    }

    /// Decode encoded image bytes into a texture ready for upload. Fails
    /// when the GPU context does not exist yet, or when the bytes are not
    /// a decodable image, with the decoder's message.
    pub fn load_texture_from_bytes(&self, bytes: &[u8]) -> (r: Result<Texture, String>)
        ensures
            self@.phase is Ready ==> (match decode_rgba_of(bytes@) {
                Some(d) => {
                    &&& r matches Ok(t)
                    &&& t.width == d.1
                    &&& t.height == d.2
                    &&& t.pixels() == d.0
                    &&& t.wf()
                },
                None => r is Err,
            }),
            !(self@.phase is Ready) ==> (r matches Err(m) && m@ == "Device not initialized"@),
    {
        match self.phase {
            Phase::Ready(_) => Texture::from_encoded_bytes(bytes),
            _ => Err(String::from_str("Device not initialized")),
        }
    }
}

} // verus!
