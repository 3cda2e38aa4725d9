//! The errors of the two components, each a closed set of cases.

use vstd::prelude::*;

verus! {

/// Why no configuration could be loaded.
#[derive(Debug, PartialEq, Eq)]
pub enum ConfigError {
    /// The environment variable of this name is not set.
    Missing(String),
}

/// Why no token could be fetched.
#[derive(Debug, PartialEq, Eq)]
pub enum FetchError {
    /// The request did not get through to the broker; the detail says why.
    Transport(String),
    /// The broker answered with this status, which is no success.
    HttpStatus(u16),
    /// The broker's answer does not hold the expected document; the detail
    /// says what is wrong with it.
    Decode(String),
}

/// A `ConfigError` as a mathematical value.
pub enum ConfigErrorView {
    Missing(Seq<char>),
}

/// A `FetchError` as a mathematical value.
pub enum FetchErrorView {
    Transport(Seq<char>),
    HttpStatus(u16),
    Decode(Seq<char>),
}

impl View for ConfigError {
    type V = ConfigErrorView;

    open spec fn view(&self) -> ConfigErrorView {
        match self {
            ConfigError::Missing(name) => ConfigErrorView::Missing(name@),
        }
    }
}

impl View for FetchError {
    type V = FetchErrorView;

    open spec fn view(&self) -> FetchErrorView {
        match self {
            FetchError::Transport(detail) => FetchErrorView::Transport(detail@),
            FetchError::HttpStatus(status) => FetchErrorView::HttpStatus(*status),
            FetchError::Decode(detail) => FetchErrorView::Decode(detail@),
        }
    }
}

} // verus!
