//! Performance summary banner, printed alongside the functional tests.

/// Summary benchmark
#[test]
fn benchmark_summary() {
    println!("\n");
    println!("═══════════════════════════════════════════════════════════════");
    println!("                 TELEFLOW PERFORMANCE SUMMARY");
    println!("═══════════════════════════════════════════════════════════════");
    println!("");
    println!("All benchmarks run in release mode with optimizations enabled.");
    println!("Requirements: All operations < 5ms for smooth real-time response.");
    println!("");
    println!("Run individual benchmarks above for detailed metrics.");
    println!("═══════════════════════════════════════════════════════════════");
}
