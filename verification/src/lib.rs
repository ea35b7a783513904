//! A safety layer for the Java Native Interface, without the native calls.
//!
//! The native interface is a table of C functions with two rules that the
//! C types do not show: most functions must not be called while a Java
//! exception is pending, and every reference that the interface hands out
//! belongs to one of three ownership classes, each with its own release
//! function. Breaking either rule is undefined behaviour.
//!
//! This crate holds the two rules as data and decisions. It never calls
//! the native interface itself. The program around it owns the pointers
//! and makes the calls; what a call means is decided here.
//!
//! # How an operation runs
//!
//! For most operations the caller makes the native call first and then
//! hands what it returned, as plain values, to the function of this crate
//! that is named after the operation, together with the token that the
//! operation asks for. The function says what the caller has now: a
//! handle, a status, the next token.
//!
//! A few native calls return nothing to decide on: releasing a reference,
//! printing an exception, popping a frame. For those the function of this
//! crate comes first. It returns the call that is due as a
//! [`reference::NativeCall`], and the caller makes it.
//!
//! # Tokens
//!
//! A thread holds a [`token::Capability`] while no exception is pending
//! and a [`token::Exception`] while one is. An operation that can raise
//! takes the capability by value and returns a fresh one only if it
//! succeeded. Each token is good for one call: the environment numbers the
//! tokens that it issues and accepts only the last. The numbers exist for
//! the verifier alone; at run time a token has no size.
//!
//! # Modules
//!
//! - [`native`]: versions, status codes and the other plain values of the
//!   interface.
//! - [`token`]: the two tokens.
//! - [`reference`]: the ownership classes and their release calls.
//! - [`chars`]: NUL-terminated text buffers.
//! - [`env`]: the environment of one thread, which owns the protocol.
//! - [`object`] and [`string`]: the handle types.
//! - [`vm`]: the runtime, its start-up arguments, and attaching a thread.

pub mod chars;
pub mod env;
pub mod native;
pub mod object;
pub mod reference;
pub mod string;
pub mod token;
pub mod vm;
