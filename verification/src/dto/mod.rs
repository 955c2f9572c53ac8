//! Values exchanged with callers of the service.

pub mod auth;

pub use auth::{
    get_claims, AuthRequest, AuthResponse, BearerToken, Claims, ClaimsView, RefreshRequest,
    UserInfo, UserInfoView,
};
