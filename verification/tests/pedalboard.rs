use nerve_runtime::device::VulkanComputeDevice;
use nerve_runtime::device::VulkanError;
use nerve_runtime::pedalboard::VulkanU32PedalRun;
use nerve_runtime::pedalboard::VulkanU32Pedalboard;
use nerve_runtime::pedalboard::VulkanU32PedalboardRun;
use nerve_runtime::pedalboard::VulkanU32ShaderPedal;

/// A device whose one shader adds one to every word.
struct AddingDevice {
    device: VulkanComputeDevice,
    pipelines: Vec<Vec<u32>>,
}

impl AddingDevice {
    fn new() -> Self {
        AddingDevice {
            device: VulkanComputeDevice {
                device_id: "gpu0".to_string(),
                device_name: "adding device".to_string(),
                supports_opaque_fd_timeline_semaphores: false,
            },
            pipelines: vec![],
        }
    }

    fn install(&mut self, board: &VulkanU32Pedalboard) -> Vec<Result<(), VulkanError>> {
        board
            .pedals()
            .iter()
            .map(|pedal| {
                if !self.pipelines.contains(&pedal.spirv_words) {
                    self.pipelines.push(pedal.spirv_words.clone());
                }
                Ok(())
            })
            .collect()
    }

    fn run(&self, input: &[u32]) -> Vec<u32> {
        input.iter().map(|word| word + 1).collect()
    }

    fn process(
        &self,
        board: &VulkanU32Pedalboard,
        input: &[u32],
    ) -> Result<VulkanU32PedalboardRun, VulkanError> {
        let mut outputs = vec![];
        for i in 0..board.pedals().len() {
            let given = board.pedal_input(input, &outputs, i);
            outputs.push(Ok(self.run(&given)));
        }
        board.process(&self.device, input, &outputs)
    }
}

fn add_one_pedal(id: &str) -> VulkanU32ShaderPedal {
    VulkanU32ShaderPedal {
        pedal_id: id.to_string(),
        op: "u32_add_one".to_string(),
        spirv_words: vec![0x0723_0203, 0x0001_0000],
        local_size_x: 64,
    }
}

#[test]
fn series_pedals_execute_in_order_on_one_device() {
    let mut device = AddingDevice::new();
    let first = add_one_pedal("add_one_a");
    let second = add_one_pedal("add_one_b");
    let board = VulkanU32Pedalboard::new(vec![first, second]);
    let installed = device.install(&board);
    board.install(&installed).unwrap();

    assert_eq!(device.pipelines.len(), 1);

    let run = device.process(&board, &[0, 10, 40]).unwrap();

    assert_eq!(board.pedal_ids(), vec!["add_one_a", "add_one_b"]);
    assert_eq!(run.input, vec![0, 10, 40]);
    assert_eq!(run.output, vec![2, 12, 42]);
    assert_eq!(run.steps.len(), 2);
    assert_eq!(run.steps[0].output, vec![1, 11, 41]);
    assert_eq!(run.steps[1].input, vec![1, 11, 41]);
}

#[test]
fn pedal_can_be_duplicated_or_removed_from_board() {
    let device = AddingDevice::new();
    let pedal = add_one_pedal("add_one");
    let mut board = VulkanU32Pedalboard::new(vec![pedal]);
    board.duplicate_pedal(0).unwrap();

    let duplicated = device.process(&board, &[5]).unwrap();
    let removed = board.remove_pedal(1).unwrap();
    let single = device.process(&board, &[5]).unwrap();

    assert_eq!(removed.pedal_id(), "add_one");
    assert_eq!(duplicated.output, vec![7]);
    assert_eq!(single.output, vec![6]);
    assert_eq!(board.pedal_ids(), vec!["add_one"]);
}

#[test]
fn empty_board_is_a_bypass() {
    let device = AddingDevice::new();
    let board = VulkanU32Pedalboard::bypass();

    let run = device.process(&board, &[9, 10]).unwrap();

    assert_eq!(board.pedals(), &[]);
    assert_eq!(run.input, vec![9, 10]);
    assert_eq!(run.output, vec![9, 10]);
    assert!(run.steps.is_empty());
}

#[test]
fn series_pedals_can_process_one_resident_signal_buffer() {
    let device = AddingDevice::new();
    let first = add_one_pedal("add_one_a");
    let second = add_one_pedal("add_one_b");
    let mut buffer: Vec<u32> = vec![10, 20, 30];
    let board = VulkanU32Pedalboard::new(vec![first, second]);
    board.install(&vec![Ok(()), Ok(())]).unwrap();

    let before = Ok(buffer.clone());
    let mut runs = vec![];
    for pedal in board.pedals() {
        let output = device.run(&buffer);
        runs.push(Ok(VulkanU32PedalRun {
            pedal_id: pedal.pedal_id().to_string(),
            input: buffer.clone(),
            output: output.clone(),
        }));
        buffer = output;
    }
    let after = Ok(buffer.clone());
    let run = board
        .process_resident(&device.device, &before, &runs, &after)
        .unwrap();

    assert_eq!(run.input, vec![10, 20, 30]);
    assert_eq!(run.output, vec![12, 22, 32]);
    assert_eq!(run.steps.len(), 2);
    assert_eq!(buffer, vec![12, 22, 32]);
}

#[test]
fn positions_without_a_pedal_are_refused() {
    let mut board = VulkanU32Pedalboard::new(vec![add_one_pedal("a")]);
    assert_eq!(
        board.duplicate_pedal(1).unwrap_err().to_string(),
        "no pedal at index 1"
    );
    assert_eq!(
        board.remove_pedal(7).unwrap_err().to_string(),
        "no pedal at index 7"
    );
    assert_eq!(board.pedal_ids(), vec!["a"]);
}

#[test]
fn a_failing_pedal_ends_the_run() {
    let device = AddingDevice::new();
    let board = VulkanU32Pedalboard::new(vec![add_one_pedal("a"), add_one_pedal("b")]);
    let outputs = vec![
        Ok(vec![1]),
        Err(VulkanError("device lost".to_string())),
    ];
    let error = board.process(&device.device, &[0], &outputs).unwrap_err();
    assert_eq!(error.to_string(), "device lost");
    let refused = vec![Ok(()), Err(VulkanError("no pipeline".to_string()))];
    assert_eq!(
        board.install(&refused).unwrap_err().to_string(),
        "no pipeline"
    );
}

#[test]
fn removing_a_doubled_pedal_gives_back_the_board() {
    let mut board = VulkanU32Pedalboard::new(vec![add_one_pedal("a"), add_one_pedal("b")]);
    let before = board.clone();
    board.duplicate_pedal(0).unwrap();
    assert_eq!(board.pedal_ids(), vec!["a", "a", "b"]);
    board.remove_pedal(1).unwrap();
    assert_eq!(board, before);
}
