pub mod post_processing_pipiline;
