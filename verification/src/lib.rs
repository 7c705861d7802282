//! A wine fermentation calculator.
//!
//! From the sugar of a must, the climate it grew in, the temperature and the
//! progress of the yeast, the calculator derives the potential and the actual
//! alcohol by volume, the residual sugar, and the words that describe the
//! wine: sweetness, body, tannins, acidity, alcohol level and a flavor note
//! from a table of grapes.
//!
//! Every quantity is an exact fraction of integers. Temperatures are counted
//! in thousandths of a degree Celsius, and the progress of the yeast, which
//! the caller works out from its rate model, in millionths of the sugar.

pub mod calculator;
pub mod climate;
pub mod descriptors;
pub mod fermentation;
pub mod flavor;
pub mod laws;
pub mod numerals;
pub mod ratio;
pub mod simulator;
pub mod summary;
pub mod tannin;
pub mod text;
