//! Bookkeeping core of a stereo-to-surround upmixer: window sizing, the
//! per-bin averaging windows, the ordered hand-over of transformed windows
//! between the pipeline's stages, and the policy decisions around them.

pub mod window_sizes;
pub mod channels;
pub mod logger;
pub mod matrix;
pub mod options;
pub mod panner_and_writer;
pub mod panning_averager;
pub mod reader;
pub mod structs;
pub mod upmixer;
pub mod vecdeque_ext;
