pub mod work_queue_backend;
