pub mod centralization;
pub mod normalize_req_path;
