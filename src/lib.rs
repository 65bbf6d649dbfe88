//! Audio clip labelling: the batching admission scheduler, the label policy,
//! feature validation and fitting, and the client-side result paths.

pub mod features;
pub mod label;
pub mod laws;
pub mod paths;
pub mod request;
pub mod response;
pub mod scheduler;

pub use features::{fit, prepare, stack, validate, ElementType, FeatureTensor, ValidationError};
pub use label::{classify, label_activations, Label, CLASS_COUNT};
pub use paths::{get_result_path, result_dir, Command, ResultPathOptions};
pub use request::{decode_request, encode_request, RequestError};
pub use response::{label_from_name, label_name, label_response_body, parse_label_response};
pub use scheduler::{dispatch, InferenceError, Poll, Scheduler};
