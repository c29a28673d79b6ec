//! Scheduling core for procedural noise generation on a GPU compute pipeline.
//!
//! The library decides what is to be dispatched, in which order and with which
//! resources; the host performs the device work it is told to do.
//!
//! A request goes this way:
//!
//! 1. The producer asks the [`noise_queue::ComputeNoiseQueue`] to run kernels
//!    on an image.
//! 2. [`noise_queue::prepare_compute_noise_buffers`] checks each request
//!    against the image store and binds the ones that are in order.
//! 3. [`render::extract::extract_compute_noise_queue`] hands the bound
//!    sequences to the consumer.
//! 4. [`render::prepare::prepare_render_noise`] gives each instruction its
//!    bind group and its pipeline from the [`render::pipeline::PipelineCatalog`].
//! 5. [`render::compute::compute_noise`] records a pass for every instruction
//!    whose sequence can run, and [`render::compute::submit_compute_noise`]
//!    hands the recorded passes out for submission.
//!
//! [`render::node`] schedules the requests of one kernel type over a double
//! buffer, and [`readback`] brings the bytes of an image back to the producer.

pub mod image;
pub mod noise;
pub mod noise_queue;
pub mod prelude;
pub mod readback;
pub mod render;
pub mod shader;
pub mod table;
