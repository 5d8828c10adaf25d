//! Verified core pieces of an anonymity-network client: the bucket-sort
//! storage engine used by its proof-of-work solver, key-store path
//! validation and matching, and small error/metadata utilities.

mod bucket_array;
mod byte_qty;
mod docmeta;
mod feature_graph;
mod ffi_err;
mod key_specifier;
mod numeric;
mod rpc_err;

pub use bucket_array::divisor;
pub use bucket_array::join_wide_key;
pub use bucket_array::lemma_full_key_exact;
pub use bucket_array::lemma_join_split_exact;
pub use bucket_array::lemma_split_join_exact;
pub use bucket_array::split_wide_key;
pub use bucket_array::BucketArrayImpl;
pub use bucket_array::BucketArrayMemory;
pub use bucket_array::KeyValueBucketArray;
pub use bucket_array::ValueBucketArray;
pub use byte_qty::qty_display;
pub use byte_qty::Qty;
pub use docmeta::sha3_256_of;
pub use docmeta::sha3_dual;
pub use docmeta::ConsensusMeta;
pub use docmeta::Lifetime;
pub use feature_graph::arti_dependencies;
pub use feature_graph::push_unique;
pub use feature_graph::seq_contains_str;
pub use feature_graph::str_vec_contains;
pub use feature_graph::string_set_difference;
pub use feature_graph::string_set_intersection;
pub use feature_graph::workspace_deps;
pub use feature_graph::DepEntry;
pub use feature_graph::Dependency;
pub use feature_graph::Feature;
pub use feature_graph::FeatureGraph;
pub use ffi_err::arti_status_to_str;
pub use ffi_err::status_code_spec;
pub use ffi_err::status_message_spec;
pub use ffi_err::ArtiStatus;
pub use ffi_err::BuilderError;
pub use ffi_err::ConnectError;
pub use ffi_err::ErrorResponse;
pub use ffi_err::FfiError;
pub use ffi_err::FfiStatus;
pub use ffi_err::IntoFfiError;
pub use ffi_err::NullPointer;
pub use ffi_err::ProtoError;
pub use key_specifier::arti_path_error_message;
pub use key_specifier::arti_path_result;
pub use key_specifier::arti_path_result_from;
pub use key_specifier::bad_outer_char;
pub use key_specifier::char_alphanumeric;
pub use key_specifier::component_result;
pub use key_specifier::find_disallowed;
pub use key_specifier::find_sep;
pub use key_specifier::glob_captures;
pub use key_specifier::has_dot_dot;
pub use key_specifier::is_allowed_char_spec;
pub use key_specifier::ArtiPath;
pub use key_specifier::ArtiPathComponent;
pub use key_specifier::ArtiPathError;
pub use key_specifier::CTorPath;
pub use key_specifier::KeyPath;
pub use key_specifier::KeyPathError;
pub use key_specifier::KeyPathPattern;
pub use key_specifier::KeyPathPatternSet;
pub use key_specifier::KeyPathRange;
pub use key_specifier::KeySpecifier;
pub use numeric::Count;
pub use numeric::Key;
pub use numeric::KeyStorage;
pub use rpc_err::code_value;
pub use rpc_err::code_value_spec;
pub use rpc_err::kind_to_code;
pub use rpc_err::kind_to_code_spec;
pub use rpc_err::ErrorKind;
pub use rpc_err::RpcCode;
pub use rpc_err::RpcError;

