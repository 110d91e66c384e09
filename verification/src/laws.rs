//! What holds of the library as a whole: what its operations owe, whichever way they
//! are carried out.

pub mod accepting;
pub mod connecting;
pub mod dispatching;
pub mod ending;
pub mod installing;
pub mod listening;
pub mod retiring;
pub mod searching;
pub mod surveying;
pub mod terms;
pub mod timing;
pub mod wording;
pub mod working;
