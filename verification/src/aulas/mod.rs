//! Worked lessons: the same tasks on plainer data.

pub mod aula_01;
