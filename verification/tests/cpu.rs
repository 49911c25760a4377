use chip_8::cpu::CPU;
use chip_8::memory::Memory;
use chip_8::{Display, Input};

struct DisplayStub {
    clear_calls: usize,
}

impl Display for DisplayStub {
    fn is_dirty(&self) -> bool {
        false
    }

    fn clear_dirty(&mut self) {}

    fn rgba_framebuffer(&self) -> Vec<u32> {
        Vec::new()
    }

    fn cls(&mut self) {
        self.clear_calls += 1;
    }

    fn draw_sprite(
        &mut self,
        _x: u8,
        _y: u8,
        _base_address: u16,
        _bytes_to_read: u8,
        _memory: &Memory,
    ) -> bool {
        true
    }
}

impl Default for DisplayStub {
    fn default() -> Self {
        Self { clear_calls: 0 }
    }
}

struct NOPInput {}

impl Default for NOPInput {
    fn default() -> Self {
        Self {}
    }
}

impl Input for NOPInput {
    fn is_key_down(&self, _key: u8) -> bool {
        false
    }

    fn last_key_down(&self) -> Option<u8> {
        None
    }
}

fn make_test_cpu() -> CPU<DisplayStub> {
    CPU::new(Memory::default(), DisplayStub::default())
}

#[test]
fn test_jump() {
    let mut cpu = make_test_cpu();

    let pc = cpu.execute_opcode(0x1FED, cpu.pc, true, &NOPInput::default());

    assert_eq!(pc, 0x0FED);
}

#[test]
fn test_cls() {
    let mut cpu = make_test_cpu();

    let pc = cpu.execute_opcode(0x00E0, cpu.pc, true, &NOPInput::default());

    assert_eq!(pc, 0x202);
    assert_eq!(cpu.display.clear_calls, 1);
}

#[test]
fn test_load_registers_into_memory() {
    let mut cpu = make_test_cpu();
    let data: Vec<u8> = (0..16).into_iter().map(|i| i * 2).collect();
    cpu.v.clone_from_slice(&data);

    cpu.execute_opcode(0xFF55, cpu.pc, true, &NOPInput::default());

    assert_eq!(cpu.memory.as_slice(cpu.i, 16), data.as_slice());
}

#[test]
fn test_load_memory_into_registers() {
    let mut cpu = make_test_cpu();
    let data: Vec<u8> = (0..16).into_iter().map(|i| i * 2).collect();
    cpu.memory.copy_from_slice(cpu.i, &data);

    cpu.execute_opcode(0xFF65, cpu.pc, true, &NOPInput::default());

    assert_eq!(cpu.v.as_slice_through(15), data.as_slice());
}
