//! Placeholder-image service core: origin resolution, content negotiation,
//! the decode / hash / reconstruct / encode pipeline and the mapping of its
//! outcome to an HTTP reply.
pub mod codec;
pub mod negotiate;
pub mod origin;
pub mod pipeline;
pub mod pixels;
pub mod reply;
