pub mod ws28xx;
