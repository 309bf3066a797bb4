pub mod workload;
