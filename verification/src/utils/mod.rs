pub mod keytracker;
