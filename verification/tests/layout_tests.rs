//! Tests of the screen-layout partition across ordinary, tiny and extreme
//! terminal sizes.

use system_monitor::layout::compute_layout;

#[test]
fn test_ui_layout() {
    // A mock terminal of 100x100.
    let layout = compute_layout(100, 100);
    let chunks = vec![layout.title, layout.cpu, layout.memory];

    // Test layout structure
    assert_eq!(chunks.len(), 3, "Layout should have three sections");

    // Test section heights
    assert_eq!(chunks[0].height, 2, "Title should be exactly 2 units high");

    // Test that sections fill the width
    assert_eq!(chunks[0].width, 100, "Sections should use full width");
    assert_eq!(chunks[1].width, 100, "Sections should use full width");
    assert_eq!(chunks[2].width, 100, "Sections should use full width");

    // Test vertical positioning
    assert_eq!(chunks[0].y, 0, "Title should start at top");
    assert_eq!(chunks[1].y, 2, "CPU gauge should start after title");
    assert_eq!(
        chunks[2].y,
        chunks[1].y + chunks[1].height,
        "Memory gauge should start after CPU gauge"
    );

    // Test that the layout fills the entire height
    assert_eq!(
        chunks[0].height + chunks[1].height + chunks[2].height,
        100,
        "Layout should fill entire height"
    );

    // Test that CPU and Memory sections are approximately equal
    assert!(
        (chunks[1].height as i32 - chunks[2].height as i32).abs() <= 2,
        "CPU and Memory sections should be approximately equal"
    );
}

#[test]
fn test_layout_constraints() {
    // Test with different terminal sizes
    let test_sizes = vec![
        (80, 24),   // Standard terminal
        (120, 40),  // Large terminal
        (60, 20),   // Small terminal
        (10, 10),   // Tiny terminal
        (255, 255), // Max reasonable terminal size
    ];

    for (width, height) in test_sizes {
        let layout = compute_layout(width, height);
        let chunks = vec![layout.title, layout.cpu, layout.memory];

        // Print detailed debug information
        println!("\nTerminal size: {}x{}", width, height);
        println!("Title height: {}", chunks[0].height);
        println!("CPU height: {}", chunks[1].height);
        println!("Memory height: {}", chunks[2].height);
        println!(
            "Total height: {}",
            chunks[0].height + chunks[1].height + chunks[2].height
        );

        // Verify minimum heights
        assert!(
            chunks[0].height > 0,
            "Title section should have non-zero height"
        );
        assert!(
            chunks[1].height > 0,
            "CPU gauge should have non-zero height"
        );
        assert!(
            chunks[2].height > 0,
            "Memory gauge should have non-zero height"
        );

        // Verify the title is exactly 2 units high
        assert_eq!(chunks[0].height, 2, "Title should be exactly 2 units high");

        // Verify total height
        let total_height = chunks[0].height + chunks[1].height + chunks[2].height;
        assert_eq!(
            total_height, height,
            "Total height {} should match terminal height {}",
            total_height, height
        );

        // Verify the difference between sections is at most 2
        assert!(
            (chunks[1].height as i32 - chunks[2].height as i32).abs() <= 2,
            "CPU height {} and Memory height {} should differ by at most 2 units",
            chunks[1].height,
            chunks[2].height
        );

        // Verify that sections are reasonable proportions
        let remaining_height = height - chunks[0].height;
        assert!(
            chunks[1].height <= remaining_height,
            "CPU section height {} should not exceed remaining height {}",
            chunks[1].height,
            remaining_height
        );
        assert!(
            chunks[2].height <= remaining_height,
            "Memory section height {} should not exceed remaining height {}",
            chunks[2].height,
            remaining_height
        );

        // Verify that sections together use all remaining space
        assert_eq!(
            chunks[1].height + chunks[2].height,
            remaining_height,
            "CPU and Memory sections should use all remaining space"
        );
    }
}

#[test]
fn test_large_terminal_size() {
    // Test handling of unreasonably large terminal sizes
    let large_sizes = vec![(1000, 1000), (500, 500), (u16::MAX, u16::MAX)];

    for (width, height) in large_sizes {
        let layout = compute_layout(width, height);
        let chunks = vec![layout.title, layout.cpu, layout.memory];

        println!("\nLarge terminal size: {}x{}", width, height);
        println!("Title height: {}", chunks[0].height);
        println!("CPU height: {}", chunks[1].height);
        println!("Memory height: {}", chunks[2].height);
        let total = chunks[0].height + chunks[1].height + chunks[2].height;
        println!("Total height: {} (Original height: {})", total, height);

        // For large terminals, we only verify:
        // 1. Title is still 2 units
        assert_eq!(chunks[0].height, 2, "Title should be exactly 2 units high");

        // 2. Sections are non-zero
        assert!(chunks[1].height > 0, "CPU section should be non-zero");
        assert!(chunks[2].height > 0, "Memory section should be non-zero");

        // 3. Sections are approximately equal
        assert!(
            (chunks[1].height as i32 - chunks[2].height as i32).abs() <= 2,
            "CPU and Memory sections should be approximately equal"
        );

        // 4. Layout is valid (no overflows)
        assert!(chunks[0].y < chunks[1].y);
        assert!(chunks[1].y < chunks[2].y);
    }
}

#[test]
fn test_layout_zero_and_short_heights() {
    // Heights below the title bar: the title is clamped and both gauges
    // collapse to zero, with the width kept.
    for height in [0u16, 1u16] {
        let layout = compute_layout(37, height);
        assert_eq!(layout.title.height, height);
        assert_eq!(layout.cpu.height, 0);
        assert_eq!(layout.memory.height, 0);
        assert_eq!(layout.title.width, 37);
        assert_eq!(layout.cpu.width, 37);
        assert_eq!(layout.memory.width, 37);
        assert_eq!(layout.title.y, 0);
        assert_eq!(
            layout.title.height + layout.cpu.height + layout.memory.height,
            height
        );
    }
    // Zero width is tiled as well.
    let layout = compute_layout(0, 24);
    assert_eq!(layout.title.width, 0);
    assert_eq!(
        layout.title.height + layout.cpu.height + layout.memory.height,
        24
    );
}

#[test]
fn test_layout_property_grid() {
    // The tiling invariants across a grid of dimensions, including the
    // extremes of the cell coordinate range.
    let dims = vec![0u16, 1, 2, 3, 10, 24, 40, 100, 1000, 65535];
    for &width in &dims {
        for &height in &dims {
            let layout = compute_layout(width, height);
            let title_h = if height < 2 { height } else { 2 };
            assert_eq!(layout.title.height, title_h);
            assert_eq!(
                layout.title.height + layout.cpu.height + layout.memory.height,
                height,
                "regions must tile a {}x{} screen exactly",
                width,
                height
            );
            assert!(layout.cpu.height >= layout.memory.height);
            assert!(layout.cpu.height - layout.memory.height <= 1);
            assert_eq!(layout.title.width, width);
            assert_eq!(layout.cpu.width, width);
            assert_eq!(layout.memory.width, width);
            assert_eq!(layout.title.y, 0);
            assert_eq!(layout.cpu.y, layout.title.y + layout.title.height);
            assert_eq!(layout.memory.y, layout.cpu.y + layout.cpu.height);
        }
    }
}
