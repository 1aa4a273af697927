//! The rules of the browser backend, whose store is one flat map from key to string. A file's
//! key is spelled as in [`super::address`]; text is stored as the string it encodes, bytes as
//! hexadecimal text. The calls
//! into the browser's store are made by the caller, who hands their outcomes to these functions.

pub mod binary_values;
pub mod storage;
pub mod text_values;
